//! Topic names and topic filters, as the `mqtt` crate checks them.

use vstd::prelude::*;

verus! {

/// The number of bytes `s` takes in UTF-8.
pub open spec fn utf8_len(s: Seq<char>) -> nat {
    vstd::utf8::encode_utf8(s).len()
}

/// A topic name: not empty, at most 65535 bytes, and free of the wildcards
/// `#` and `+`.
pub open spec fn valid_topic_name(s: Seq<char>) -> bool {
    &&& s.len() > 0
    &&& utf8_len(s) <= 65535
    &&& forall|i: int| 0 <= i < s.len() ==> s[i] != '#' && s[i] != '+'
}

/// A topic filter: not empty, at most 65535 bytes; a `+` fills a whole level
/// (between `/`s), and a `#` fills the whole last level.
pub open spec fn valid_topic_filter(s: Seq<char>) -> bool {
    &&& s.len() > 0
    &&& utf8_len(s) <= 65535
    &&& forall|i: int|
        0 <= i < s.len() && #[trigger] s[i] == '+' ==> (i == 0 || s[i - 1] == '/') && (i + 1
            == s.len() || s[i + 1] == '/')
    &&& forall|i: int|
        0 <= i < s.len() && #[trigger] s[i] == '#' ==> i + 1 == s.len() && (i == 0 || s[i - 1]
            == '/')
}

/// The text of the error the `mqtt` crate gives for a refused topic.
pub open spec fn invalid_topic_text(s: Seq<char>) -> Seq<char> {
    "invalid topic filter ("@ + s + ")"@
}

/// Checks `topic` as a topic name.
///
/// Calls `mqtt::TopicName::new`, which refuses a name that is empty, longer
/// than 65535 bytes, or holds `#` or `+`, with an error that displays as
/// `invalid topic filter (<topic>)`.
#[verifier::external_body]
pub(crate) fn check_topic_name(topic: &String) -> (r: Result<(), String>)
    ensures
        r is Ok <==> valid_topic_name(topic@),
        r matches Err(text) ==> text@ == invalid_topic_text(topic@),
{
    match mqtt::TopicName::new(topic.clone()) {
        Ok(_) => Ok(()),
        Err(e) => Err(e.to_string()),
    }
}

/// Checks `topic` as a topic filter.
///
/// Calls `mqtt::TopicFilter::new`, which accepts a filter that is not empty,
/// at most 65535 bytes, and matches `^(([^+#]*|\+)(/([^+#]*|\+))*(/#)?|#)$`:
/// a `+` stands alone between `/`s and a `#` only as the whole last level.
#[verifier::external_body]
pub(crate) fn is_valid_topic_filter(topic: &String) -> (r: bool)
    ensures
        r == valid_topic_filter(topic@),
{
    mqtt::TopicFilter::new(topic.clone()).is_ok()
}

} // verus!
