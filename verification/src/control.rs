use url_encoded_data::UrlEncodedData;
use vstd::prelude::*;

use crate::register::Register;
use crate::statetransfer::ControlCode;
use crate::text::{chars_of, read_unsigned, same_text, unsigned_number};

verus! {

/// `url_encoded_data::UrlEncodedData`: a form body, parsed into its pairs of
/// key and value.
#[verifier::external_type_specification]
#[verifier::external_body]
pub struct ExUrlEncodedData<'a>(UrlEncodedData<'a>);

/// For each key of a parsed form the value of the key's first pair.
pub uninterp spec fn first_values(form: UrlEncodedData) -> Map<Seq<char>, Seq<char>>;

/// What `UrlEncodedData::parse_str` finds in a form body: for each key the
/// value of the key's first pair, both decoded.
pub uninterp spec fn parsed_form(body: Seq<char>) -> Map<Seq<char>, Seq<char>>;

/// `UrlEncodedData::parse_str`: the pairs in the text after the first `?`,
/// or in the whole text where there is none, percent-decoded.
#[verifier::external_body]
fn parse_form<'a>(body: &'a str) -> (form: UrlEncodedData<'a>)
    ensures
        first_values(form) == parsed_form(body@),
{
    UrlEncodedData::parse_str(body)
}

/// `UrlEncodedData::get_first`: the value of the first pair with the key,
/// if the form has the key.
#[verifier::external_body]
fn first_value<'a>(form: &'a UrlEncodedData<'a>, key: &str) -> (value: Option<&'a str>)
    ensures
        match value {
            Some(text) => first_values(*form).contains_key(key@) && first_values(*form)[key@]
                == text@,
            None => !first_values(*form).contains_key(key@),
        },
{
    form.get_first(key)
}

/// The number that a field of a form gives: the field's text in decimal,
/// or 0 where the field is missing or is no number of 32 bits.
pub open spec fn field_number(field: Option<Seq<char>>) -> u32 {
    match field {
        Some(text) => match unsigned_number(text, 10, u32::MAX as nat) {
            Some(n) => n as u32,
            None => 0,
        },
        None => 0,
    }
}

/// The message that the fields `reg` and `val` of a form ask for: write
/// the value to the register with the number; `A0` where there is no
/// register with that number.
pub open spec fn poke_of(reg: Option<Seq<char>>, val: Option<Seq<char>>) -> ControlCode {
    ControlCode::POKEREG {
        register: if field_number(reg) < 32 {
            Register::numbered(field_number(reg) as int)
        } else {
            Register::A0
        },
        value: field_number(val),
    }
}

/// The value of a key of a form, if it has the key.
pub open spec fn field_of(form: Map<Seq<char>, Seq<char>>, key: Seq<char>) -> Option<Seq<char>> {
    if form.contains_key(key) {
        Some(form[key])
    } else {
        None
    }
}

/// The message that a request to the control endpoint `name` with the form
/// `form` asks for; `None` for an endpoint that is not known.
pub open spec fn control_of(name: Seq<char>, form: Map<Seq<char>, Seq<char>>) -> Option<
    ControlCode,
> {
    if name == "run"@ {
        Some(ControlCode::RUN)
    } else if name == "stop"@ {
        Some(ControlCode::STOP)
    } else if name == "step"@ {
        Some(ControlCode::STEP)
    } else if name == "pokereg"@ {
        Some(poke_of(field_of(form, "reg"@), field_of(form, "val"@)))
    } else {
        None
    }
}

/// The number that a field of a form gives.
pub fn number_of(field: Option<&str>) -> (n: u32)
    ensures
        n == field_number(
            match field {
                Some(text) => Some(text@),
                None => None,
            },
        ),
{
    match field {
        Some(text) => {
            let chars = chars_of(text);
            assert(chars@.skip(0) =~= chars@);
            match read_unsigned(&chars, 0, 10, 0xffff_ffff) {
                Some(n) => n as u32,
                None => 0,
            }
        },
        None => 0,
    }
}

/// The message that the fields `reg` and `val` of a form ask for.
pub fn poke_register(reg: Option<&str>, val: Option<&str>) -> (code: ControlCode)
    ensures
        code == poke_of(
            match reg {
                Some(text) => Some(text@),
                None => None,
            },
            match val {
                Some(text) => Some(text@),
                None => None,
            },
        ),
{
    let register = match Register::from_num(number_of(reg)) {
        Some(register) => register,
        None => Register::A0,
    };
    ControlCode::POKEREG { register, value: number_of(val) }
}

/// The message that a request to the control endpoint `name` asks for,
/// given the body of the request.
pub fn control_for(name: &str, body: &str) -> (code: Option<ControlCode>)
    ensures
        code == control_of(name@, parsed_form(body@)),
{
    if same_text(name, "run") {
        Some(ControlCode::RUN)
    } else if same_text(name, "stop") {
        Some(ControlCode::STOP)
    } else if same_text(name, "step") {
        Some(ControlCode::STEP)
    } else if same_text(name, "pokereg") {
        let form = parse_form(body);
        Some(poke_register(first_value(&form, "reg"), first_value(&form, "val")))
    } else {
        None
    }
}

} // verus!
