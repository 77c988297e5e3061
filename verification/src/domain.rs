//! A domain name, carried as the structured name of `trust_dns_proto`.

use crate::error::{DecodeError, DecodeFault, DecodeResult};
use std::str::FromStr;
use trust_dns_proto::error::ProtoError;
use trust_dns_proto::rr::Name;
use vstd::prelude::*;
use vstd::std_specs::convert::FromSpecImpl;

verus! {

/// `trust_dns_proto::rr::Name`, a structured domain name. Nothing is said
/// of what is inside it.
#[verifier::external_type_specification]
#[verifier::external_body]
pub struct ExName(Name);

/// `trust_dns_proto::error::ProtoError`, the error of the name parser.
/// Nothing is said of what is inside it.
#[verifier::external_type_specification]
#[verifier::external_body]
pub struct ExProtoError(ProtoError);

/// `Name::clone`, which the name derives: the copy is the name.
pub assume_specification[ <Name as Clone>::clone ](name: &Name) -> (copy: Name)
    ensures
        copy == *name,
;

/// The name that `text` is in presentation form, if it is one.
pub uninterp spec fn parsed_name(text: Seq<char>) -> Option<Name>;

/// The presentation form of `name`.
pub uninterp spec fn name_text(name: Name) -> Seq<char>;

/// `Name::from_str`: the name that `text` is in presentation form, or the
/// error of the parser where it is none. What comes back depends on the
/// text alone.
#[verifier::external_body]
fn name_from_str(text: &str) -> (r: Result<Name, ProtoError>)
    ensures
        match r {
            Ok(name) => parsed_name(text@) == Some(name),
            Err(_) => parsed_name(text@) is None,
        },
{
    Name::from_str(text)
}

/// `Name::to_string`, which goes through the name's `Display`: the
/// presentation form of `name`. What comes back depends on the name alone.
#[verifier::external_body]
fn name_to_string(name: &Name) -> (r: String)
    ensures
        r@ == name_text(*name),
{
    name.to_string()
}

/// The text carried by the failure of a string that is no domain name.
pub open spec fn not_a_name_text() -> Seq<char> {
    "unable to parse string into Name"@
}

/// A domain name.
#[derive(Debug, Clone, PartialEq, Eq)]
pub struct Domain(Name);

impl View for Domain {
    type V = Name;

    /// The name that this domain holds.
    closed spec fn view(&self) -> Name {
        self.0
    }
}

impl Domain {
    /// The domain with the name `name`.
    pub fn new(name: Name) -> (domain: Domain)
        ensures
            domain@ == name,
    {
        Domain(name)
    }

    /// The presentation form of the name.
    pub fn to_text(&self) -> (text: String)
        ensures
            text@ == name_text(self@),
    {
        name_to_string(&self.0)
    }

    /// The domain whose name `text` is in presentation form; fails where
    /// `text` is no name.
    pub fn parse(text: &str) -> (r: DecodeResult<Domain>)
        ensures
            match parsed_name(text@) {
                Some(name) => r matches Ok(domain) && domain@ == name,
                None => r matches Err(e) && e@ == DecodeFault::Message(not_a_name_text()),
            },
    {
        match name_from_str(text) {
            Ok(name) => Ok(Domain(name)),
            Err(_) => Err(DecodeError::Message("unable to parse string into Name".to_owned())),
        }
    }
}

impl AsRef<Name> for Domain {
    fn as_ref(&self) -> (name: &Name)
        ensures
            *name == self@,
    {
        &self.0
    }
}

impl AsMut<Name> for Domain {
    fn as_mut(&mut self) -> (name: &mut Name)
        ensures
            *name == old(self)@,
            final(self)@ == *final(name),
    {
        &mut self.0
    }
}

impl From<Name> for Domain {
    fn from(name: Name) -> (domain: Domain) {
        Domain(name)
    }
}

impl FromSpecImpl<Name> for Domain {
    open spec fn obeys_from_spec() -> bool {
        true
    }

    closed spec fn from_spec(name: Name) -> Domain {
        Domain(name)
    }
}

impl From<Domain> for Name {
    fn from(domain: Domain) -> (name: Name) {
        domain.0
    }
}

impl FromSpecImpl<Domain> for Name {
    open spec fn obeys_from_spec() -> bool {
        true
    }

    open spec fn from_spec(domain: Domain) -> Name {
        domain@
    }
}

} // verus!
