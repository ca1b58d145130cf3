//! The JSON envelopes of query traffic: `{"input": ..}` on the way out,
//! `{"result": ..}` or an object without `result` on the way back.
//!
//! JSON values pass through as text. Reading JSON is `serde_json`'s; this
//! module frames the outgoing value and tells the two shapes of an answer
//! apart.

use crate::error::{outcome, Failure, OpaError};
use vstd::prelude::*;
use vstd::string::*;

verus! {

/// What the service answers to a query.
#[derive(Debug)]
pub enum Output<T> {
    /// A value is bound at the queried path.
    Result { result: T },
    /// No value is bound at the queried path.
    Empty {},
}

impl<T: Clone> Clone for Output<T> {
    fn clone(&self) -> (r: Output<T>)
        ensures
            match (*self, r) {
                (Output::Result { result }, Output::Result { result: copy }) => cloned(result, copy),
                (Output::Empty {  }, Output::Empty {  }) => true,
                _ => false,
            },
    {
        match self {
            Output::Result { result } => Output::Result { result: result.clone() },
            Output::Empty {  } => Output::Empty {  },
        }
    }
}

impl<T: View> View for Output<T> {
    type V = Output<T::V>;

    open spec fn view(&self) -> Output<T::V> {
        match *self {
            Output::Result { result } => Output::Result { result: result@ },
            Output::Empty {  } => Output::Empty {  },
        }
    }
}

/// The members of a JSON object: each key with the JSON text of its value.
pub type Members = Seq<(Seq<char>, Seq<char>)>;

/// Whether `serde_json::from_str` reads `text` as one JSON value.
pub uninterp spec fn is_json(text: Seq<char>) -> bool;

/// The members of the JSON object that `serde_json::from_slice` reads from
/// `body`, each key once and with the text of its value as it stands in
/// `body`; `None` where `body` is not one JSON object.
pub uninterp spec fn json_members(body: Seq<u8>) -> Option<Members>;

/// Calls `serde_json::from_str` for a value whose content is not looked at.
/// Nothing is claimed of the parser but that its verdict is the one named by
/// [`is_json`].
#[verifier::external_body]
fn check_json(text: &str) -> (r: Result<(), serde_json::Error>)
    ensures
        r is Ok <==> is_json(text@),
{
    serde_json::from_str::<&serde_json::value::RawValue>(text).map(|_| ())
}

/// Calls `serde_json::from_slice` for a map from keys to raw values, and
/// hands the entries out as text. Nothing is claimed of the parser but that
/// its outcome is the one named by [`json_members`].
#[verifier::external_body]
fn parse_members(body: &[u8]) -> (r: Result<Vec<(String, String)>, serde_json::Error>)
    ensures
        r matches Ok(members) ==> json_members(body@) == Some(members.deep_view()),
        r is Err ==> json_members(body@) is None,
{
    let object: std::collections::BTreeMap<String, Box<serde_json::value::RawValue>> =
        serde_json::from_slice(body)?;
    Ok(object.into_iter().map(|(key, value)| (key, value.get().to_owned())).collect())
}

/// The envelope of a query: `input` as the one member of an object.
pub open spec fn envelope(input: Seq<char>) -> Seq<char> {
    "{\"input\":"@ + input + "}"@
}

/// The value of the first member at or after `from` whose key is `key`.
pub open spec fn member_from(members: Members, key: Seq<char>, from: int) -> Option<Seq<char>>
    decreases members.len() - from,
{
    if 0 <= from < members.len() {
        if members[from].0 == key {
            Some(members[from].1)
        } else {
            member_from(members, key, from + 1)
        }
    } else {
        None
    }
}

/// The value of the member of `members` whose key is `key`.
pub open spec fn member(members: Members, key: Seq<char>) -> Option<Seq<char>> {
    member_from(members, key, 0)
}

/// The answer that an object with these members stands for: its `result`
/// where it has one, and the empty answer where it has none.
pub open spec fn output_of(members: Members) -> Output<Seq<char>> {
    match member(members, "result"@) {
        Some(result) => Output::Result { result },
        None => Output::Empty {  },
    }
}

/// What checking `text` comes to: nothing for JSON, a JSON failure for
/// anything else.
pub open spec fn validated(text: Seq<char>) -> Result<(), Failure> {
    if is_json(text) {
        Ok(())
    } else {
        Err(Failure::Serde)
    }
}

/// What encoding `input` comes to: its envelope, or a JSON failure where it
/// is no JSON.
pub open spec fn encoded(input: Seq<char>) -> Result<Seq<char>, Failure> {
    match validated(input) {
        Ok(_) => Ok(envelope(input)),
        Err(failure) => Err(failure),
    }
}

/// What decoding `body` comes to: the answer of the object that it holds, or
/// a JSON failure where it holds none.
pub open spec fn decoded(body: Seq<u8>) -> Result<Output<Seq<char>>, Failure> {
    match json_members(body) {
        Some(members) => Ok(output_of(members)),
        None => Err(Failure::Serde),
    }
}

/// `member_from` finds a member with the key exactly where there is one at or
/// after `from`, and then it is the first such.
pub proof fn lemma_member_from(members: Members, key: Seq<char>, from: int)
    requires
        0 <= from <= members.len(),
    ensures
        member_from(members, key, from) is None <==> forall|i: int|
            from <= i < members.len() ==> (#[trigger] members[i]).0 != key,
        member_from(members, key, from) matches Some(value) ==> exists|i: int|
            from <= i < members.len() && (#[trigger] members[i]) == (key, value) && forall|j: int|
                from <= j < i ==> (#[trigger] members[j]).0 != key,
    decreases members.len() - from,
{
    if from < members.len() {
        lemma_member_from(members, key, from + 1);
    }
}

/// An object answers with a result exactly where it has a member `result`,
/// and then with the text of that member.
pub proof fn lemma_output_of(members: Members)
    ensures
        output_of(members) is Empty <==> forall|i: int|
            0 <= i < members.len() ==> (#[trigger] members[i]).0 != "result"@,
        output_of(members) matches Output::Result { result } ==> exists|i: int|
            0 <= i < members.len() && #[trigger] members[i] == ("result"@, result),
{
    lemma_member_from(members, "result"@, 0);
}

/// An object that holds `result` and nothing else answers with that result:
/// what was sent as the value of `result` is what comes back.
pub proof fn lemma_sole_result_comes_back(value: Seq<char>)
    ensures
        output_of(seq![("result"@, value)]) == (Output::Result { result: value }),
{
}

/// Checks that `text` is one JSON value, and fails with the parser's error
/// where it is not.
pub fn validate(text: &str) -> (r: Result<(), OpaError>)
    ensures
        outcome(r) == validated(text@),
{
    match check_json(text) {
        Ok(()) => Ok(()),
        Err(e) => Err(OpaError::Serde(e)),
    }
}

/// Frames the JSON text `input` as the envelope of a query.
///
/// Fails with the parser's error where `input` is not one JSON value, so that
/// no malformed envelope is ever sent.
pub fn encode(input: &str) -> (r: Result<String, OpaError>)
    ensures
        outcome(r) == encoded(input@),
{
    match validate(input) {
        Ok(()) => {
            let mut text = String::from_str("{\"input\":");
            text.append(input);
            text.append("}");
            Ok(text)
        },
        Err(e) => Err(e),
    }
}

impl Output<String> {
    /// The answer that an object with these members stands for.
    pub fn from_members(members: &Vec<(String, String)>) -> (r: Output<String>)
        ensures
            r@ == output_of(members.deep_view()),
    {
        let key = String::from_str("result");
        let mut i: usize = 0;
        while i < members.len()
            invariant
                i <= members.len(),
                key@ == "result"@,
                member_from(members.deep_view(), key@, i as int) == member(
                    members.deep_view(),
                    key@,
                ),
            decreases members.len() - i,
        {
            if members[i].0 == key {
                return Output::Result { result: members[i].1.clone() };
            }
            i += 1;
        }
        Output::Empty {  }
    }

    /// Reads the body of an answer.
    ///
    /// A body that is a JSON object answers with its `result`, or with the
    /// empty answer where it has none. Any other body, be it no JSON or a
    /// JSON value of another kind, is an error: it is never taken for the
    /// empty answer.
    pub fn decode(body: &[u8]) -> (r: Result<Output<String>, OpaError>)
        ensures
            outcome(r) == decoded(body@),
    {
        match parse_members(body) {
            Ok(members) => Ok(Output::from_members(&members)),
            Err(e) => Err(OpaError::Serde(e)),
        }
    }
}

} // verus!
