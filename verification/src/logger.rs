use vstd::prelude::*;

verus! {

/// The line written for an information log entry: the message itself.
pub fn info(message: &str) -> (line: String)
    ensures
        line@ == message@,
{
    String::from_str(message)
}

/// The text of an error log entry: the message, then, when an extra value
/// is given, a single space and that value.
pub fn error(message: &str, extra: Option<&str>) -> (line: String)
    ensures
        line@ == match extra {
            Some(e) => message@ + seq![' '] + e@,
            None => message@,
        },
{
    let mut line = String::from_str(message);
    match extra {
        Some(e) => {
            line.append(" ");
            line.append(e);
            proof {
                reveal_strlit(" ");
            }
        },
        None => {},
    }
    line
}

} // verus!
