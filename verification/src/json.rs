//! The JSON text layer under the control protocol.
//!
//! Reading and writing JSON text is left to `serde_json`. The first half of
//! this module is the boundary: each function there makes one call into that
//! crate, and its contract is taken on trust. What a call returns is a
//! function of the text handed in, so the results are given names that the
//! contracts of the protocol layer can speak of. The second half is verified:
//! looking members up by name and reading them as the protocol needs them.

use std::collections::BTreeMap;
use vstd::prelude::*;
use vstd::string::*;

verus! {

/// One member of a JSON object: its name, and the text of its value exactly as
/// it stood in the source.
pub type Member = (String, String);

/// The names and value texts of a sequence of members.
pub open spec fn members_view(members: Seq<Member>) -> Seq<(Seq<char>, Seq<char>)> {
    members.map_values(|m: Member| (m.0@, m.1@))
}

/// The texts of a sequence of strings.
pub open spec fn texts_view(items: Seq<String>) -> Seq<Seq<char>> {
    items.map_values(|s: String| s@)
}

/// The members that `serde_json::from_str` finds when `text` is read as one
/// JSON object whose values are kept as raw text: each name once, with the
/// text of the last value that the object gives it, in ascending order of
/// name. `None` where the parser reports an error.
pub uninterp spec fn json_object_members(text: Seq<char>) -> Option<Seq<(Seq<char>, Seq<char>)>>;

/// The raw texts of the items that `serde_json::from_str` finds when `text`
/// is read as one JSON array, in order; `None` where the parser reports an
/// error.
pub uninterp spec fn json_array_items(text: Seq<char>) -> Option<Seq<Seq<char>>>;

/// The string that `serde_json::from_str` finds when `text` is read as one
/// JSON string literal, escapes resolved; `None` where the parser reports an
/// error.
pub uninterp spec fn json_string_value(text: Seq<char>) -> Option<Seq<char>>;

/// The JSON string literal that `serde_json::value::to_raw_value` writes for
/// `value`, quotes and escapes included.
pub uninterp spec fn json_string_literal(value: Seq<char>) -> Seq<char>;

/// The character of a decimal digit.
pub open spec fn digit(d: nat) -> char {
    seq!['0', '1', '2', '3', '4', '5', '6', '7', '8', '9'][d as int]
}

/// A number in decimal digits, without sign and without leading zeros.
pub open spec fn decimal(n: nat) -> Seq<char>
    decreases n,
{
    if n < 10 {
        seq![digit(n)]
    } else {
        decimal(n / 10).push(digit(n % 10))
    }
}

/// Calls `serde_json::from_str` for an ordered map from names to raw
/// values.
///
/// Trusted: the call succeeds exactly where [`json_object_members`] is
/// `Some`, and the members handed back are the ones it names. An error comes
/// back as the text that the codec's error displays.
#[verifier::external_body]
pub(crate) fn parse_object(text: &str) -> (r: Result<Vec<Member>, String>)
    ensures
        r is Ok <==> json_object_members(text@) is Some,
        r matches Ok(members) ==> members_view(members@) == json_object_members(text@).unwrap(),
{
    let parsed = serde_json::from_str::<BTreeMap<String, Box<serde_json::value::RawValue>>>(text);
    let members = parsed.map_err(|error| error.to_string())?;
    Ok(members.into_iter().map(|(name, value)| (name, value.get().to_owned())).collect())
}

/// Calls `serde_json::from_str` for a sequence of raw values.
///
/// Trusted: the call succeeds exactly where [`json_array_items`] is `Some`,
/// and the items handed back are the ones it names.
#[verifier::external_body]
pub(crate) fn parse_array(text: &str) -> (r: Result<Vec<String>, String>)
    ensures
        r is Ok <==> json_array_items(text@) is Some,
        r matches Ok(items) ==> texts_view(items@) == json_array_items(text@).unwrap(),
{
    let parsed = serde_json::from_str::<Vec<Box<serde_json::value::RawValue>>>(text);
    let items = parsed.map_err(|error| error.to_string())?;
    Ok(items.into_iter().map(|item| item.get().to_owned()).collect())
}

/// Calls `serde_json::from_str` for a string.
///
/// Trusted: the call succeeds exactly where [`json_string_value`] is `Some`,
/// and the string handed back is the one it names.
#[verifier::external_body]
pub(crate) fn parse_string(text: &str) -> (r: Result<String, String>)
    ensures
        r is Ok <==> json_string_value(text@) is Some,
        r matches Ok(value) ==> value@ == json_string_value(text@).unwrap(),
{
    serde_json::from_str::<String>(text).map_err(|error| error.to_string())
}

/// Calls `serde_json::value::to_raw_value` on a string.
///
/// Trusted: the call succeeds, for a string is written into memory and there
/// is nothing in it that the printer could refuse, and the text handed back
/// is the one that [`json_string_literal`] names.
#[verifier::external_body]
pub(crate) fn print_string(value: &str) -> (r: Result<String, String>)
    ensures
        r is Ok,
        r matches Ok(text) ==> text@ == json_string_literal(value@),
{
    let raw = serde_json::value::to_raw_value(value).map_err(|error| error.to_string())?;
    Ok(raw.get().to_owned())
}

/// Calls `serde_json::to_string` on an unsigned 32-bit number.
///
/// Trusted: the call succeeds, and the text handed back is the number in
/// decimal digits.
#[verifier::external_body]
pub(crate) fn print_number(value: u32) -> (r: Result<String, String>)
    ensures
        r is Ok,
        r matches Ok(text) ==> text@ == decimal(value as nat),
{
    serde_json::to_string(&value).map_err(|error| error.to_string())
}

/// Writes a number in decimal digits.
pub fn decimal_text(value: u32) -> (text: String)
    ensures
        text@ == decimal(value as nat),
{
    match print_number(value) {
        Ok(text) => text,
        Err(account) => account,
    }
}

/// Why a JSON text could not be read or written as the protocol asks.
#[derive(Debug)]
pub enum JsonFault {
    /// The codec itself refused the text or the value; holds its account.
    Codec(String),
    /// An object lacks the member of this name.
    MissingField(String),
    /// A parameter list that must be empty holds items.
    UnexpectedItems,
}

/// What a [`JsonFault`] says, without the codec's own account.
pub enum FaultKind {
    Codec,
    MissingField(Seq<char>),
    UnexpectedItems,
}

impl FaultKind {
    /// The text that describes the fault to a reader, where it is not the
    /// codec's own.
    pub open spec fn message(self) -> Option<Seq<char>> {
        match self {
            FaultKind::Codec => None,
            FaultKind::MissingField(name) => Some("missing field `"@ + name + "`"@),
            FaultKind::UnexpectedItems => Some("expected an empty parameter list"@),
        }
    }
}

impl View for JsonFault {
    type V = FaultKind;

    open spec fn view(&self) -> FaultKind {
        match self {
            JsonFault::Codec(_) => FaultKind::Codec,
            JsonFault::MissingField(name) => FaultKind::MissingField(name@),
            JsonFault::UnexpectedItems => FaultKind::UnexpectedItems,
        }
    }
}

impl JsonFault {
    /// The text that describes the fault to a reader.
    pub open spec fn message_spec(&self) -> Seq<char> {
        match self {
            JsonFault::Codec(account) => account@,
            JsonFault::MissingField(name) => "missing field `"@ + name@ + "`"@,
            JsonFault::UnexpectedItems => "expected an empty parameter list"@,
        }
    }

    /// Describes the fault to a reader.
    pub fn message(&self) -> (text: String)
        ensures
            text@ == self.message_spec(),
            self@.message() matches Some(expected) ==> text@ == expected,
    {
        match self {
            JsonFault::Codec(account) => account.clone(),
            JsonFault::MissingField(name) => String::from_str("missing field `").concat(
                name.as_str(),
            ).concat("`"),
            JsonFault::UnexpectedItems => String::from_str("expected an empty parameter list"),
        }
    }
}

/// The value text of the first member called `name`, if there is one.
pub open spec fn member_value(members: Seq<(Seq<char>, Seq<char>)>, name: Seq<char>) -> Option<
    Seq<char>,
>
    decreases members.len(),
{
    if members.len() == 0 {
        None
    } else if members[0].0 == name {
        Some(members[0].1)
    } else {
        member_value(members.drop_first(), name)
    }
}

/// The member called `name`, which has to be there.
pub open spec fn required_member(members: Seq<(Seq<char>, Seq<char>)>, name: Seq<char>) -> Result<
    Seq<char>,
    FaultKind,
> {
    match member_value(members, name) {
        Some(text) => Ok(text),
        None => Err(FaultKind::MissingField(name)),
    }
}

/// The member called `name`, which has to be there and to be a JSON string.
pub open spec fn string_member(members: Seq<(Seq<char>, Seq<char>)>, name: Seq<char>) -> Result<
    Seq<char>,
    FaultKind,
> {
    match member_value(members, name) {
        None => Err(FaultKind::MissingField(name)),
        Some(text) => match json_string_value(text) {
            Some(value) => Ok(value),
            None => Err(FaultKind::Codec),
        },
    }
}

/// Whether `text` is a JSON array without items, and if not, why.
pub open spec fn empty_array(text: Seq<char>) -> Result<(), FaultKind> {
    match json_array_items(text) {
        None => Err(FaultKind::Codec),
        Some(items) => if items.len() == 0 {
            Ok(())
        } else {
            Err(FaultKind::UnexpectedItems)
        },
    }
}

/// Looking a name up among the members from position `from` on is looking it
/// up in the whole, as long as no earlier member bears the name.
proof fn lemma_member_value_skip(members: Seq<(Seq<char>, Seq<char>)>, name: Seq<char>, from: int)
    requires
        0 <= from <= members.len(),
        forall|k: int| 0 <= k < from ==> members[k].0 != name,
    ensures
        member_value(members, name) == member_value(members.skip(from), name),
    decreases from,
{
    if from == 0 {
        assert(members.skip(0) =~= members);
    } else {
        lemma_member_value_skip(members, name, from - 1);
        let rest = members.skip(from - 1);
        assert(rest[0] == members[from - 1]);
        assert(rest.drop_first() =~= members.skip(from));
    }
}

/// Finds the value text of the first member called `name`.
pub fn find_member(members: &Vec<Member>, name: &str) -> (found: Option<String>)
    ensures
        match member_value(members_view(members@), name@) {
            Some(text) => found matches Some(value) && value@ == text,
            None => found is None,
        },
{
    let wanted = String::from_str(name);
    let ghost all = members_view(members@);
    let mut i: usize = 0;
    while i < members.len()
        invariant
            0 <= i <= members.len(),
            all == members_view(members@),
            wanted@ == name@,
            forall|k: int| 0 <= k < i ==> all[k].0 != name@,
        decreases members.len() - i,
    {
        if members[i].0 == wanted {
            proof {
                lemma_member_value_skip(all, name@, i as int);
                assert(all.skip(i as int)[0] == all[i as int]);
            }
            return Some(members[i].1.clone());
        }
        i += 1;
    }
    proof {
        lemma_member_value_skip(all, name@, i as int);
        assert(all.skip(i as int).len() == 0);
    }
    None
}

/// Reads the member called `name`, which has to be there.
pub fn read_member(members: &Vec<Member>, name: &str) -> (r: Result<String, JsonFault>)
    ensures
        match required_member(members_view(members@), name@) {
            Ok(text) => r matches Ok(value) && value@ == text,
            Err(kind) => r matches Err(fault) && fault@ == kind,
        },
{
    match find_member(members, name) {
        Some(value) => Ok(value),
        None => Err(JsonFault::MissingField(String::from_str(name))),
    }
}

/// Reads the member called `name` as a JSON string.
pub fn read_string_member(members: &Vec<Member>, name: &str) -> (r: Result<String, JsonFault>)
    ensures
        match string_member(members_view(members@), name@) {
            Ok(text) => r matches Ok(value) && value@ == text,
            Err(kind) => r matches Err(fault) && fault@ == kind,
        },
{
    match find_member(members, name) {
        None => Err(JsonFault::MissingField(String::from_str(name))),
        Some(text) => match parse_string(text.as_str()) {
            Ok(value) => Ok(value),
            Err(error) => Err(JsonFault::Codec(error)),
        },
    }
}

/// Accepts `text` only if it is a JSON array without items.
pub fn read_empty_array(text: &str) -> (r: Result<(), JsonFault>)
    ensures
        match empty_array(text@) {
            Ok(()) => r is Ok,
            Err(kind) => r matches Err(fault) && fault@ == kind,
        },
{
    match parse_array(text) {
        Err(error) => Err(JsonFault::Codec(error)),
        Ok(items) => {
            assert(texts_view(items@).len() == items@.len());
            if items.len() == 0 {
                Ok(())
            } else {
                Err(JsonFault::UnexpectedItems)
            }
        },
    }
}

} // verus!
