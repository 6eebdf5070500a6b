//! The line that one record becomes.

use vstd::prelude::*;
use vstd::string::*;

verus! {

/// The line for one record: the timestamp in square brackets, then the
/// program's name, the level's label and the message, each parted from the
/// next by a colon and a blank, and one newline at the end.
pub open spec fn line_text(
    timestamp: Seq<char>,
    identity: Seq<char>,
    label: Seq<char>,
    message: Seq<char>,
) -> Seq<char> {
    seq!['['] + timestamp + seq![']', ' '] + identity + seq![':', ' '] + label + seq![':', ' ']
        + message + seq!['\n']
}

/// Puts a record's parts together into its line. The parts are taken as
/// they are: a name or a label that is to show in colour is handed over
/// painted.
pub fn compose(timestamp: &str, identity: &str, label: &str, message: &str) -> (line: String)
    ensures
        line@ == line_text(timestamp@, identity@, label@, message@),
{
    proof {
        reveal_strlit("[");
        reveal_strlit("] ");
        reveal_strlit(": ");
        reveal_strlit("\n");
    }
    let mut line = String::from_str("[");
    line.append(timestamp);
    line.append("] ");
    line.append(identity);
    line.append(": ");
    line.append(label);
    line.append(": ");
    line.append(message);
    line.append("\n");
    proof {
        assert(line@ =~= line_text(timestamp@, identity@, label@, message@));
    }
    line
}

/// A line always ends in its one newline, and is longer than its parts
/// together by the eight characters that hold them apart.
pub proof fn lemma_line_shape(
    timestamp: Seq<char>,
    identity: Seq<char>,
    label: Seq<char>,
    message: Seq<char>,
)
    ensures
        line_text(timestamp, identity, label, message).len() == timestamp.len() + identity.len()
            + label.len() + message.len() + 8,
        line_text(timestamp, identity, label, message).first() == '[',
        line_text(timestamp, identity, label, message).last() == '\n',
{
}

} // verus!
