//! The providers of virtual machines, and what they have in common.
//!
//! A provider is given the bootstrap script and hands back the address of a
//! fresh machine that runs it. The calls into the clouds are made by the
//! program around this library; the decisions between the calls are here.

pub mod ec2;
pub mod gce;
pub mod multipass;

pub use ec2::Ec2;
pub use gce::Gce;
pub use multipass::Multipass;

use crate::eventually::SECOND;
use base64::Engine;
use vstd::prelude::*;
use vstd::string::*;

verus! {

/// The provider that the user chose, with its options.
pub enum SomeVmProvider {
    /// AWS Elastic Compute Cloud
    Ec2(Ec2),
    /// Google Compute Engine
    Gce(Gce),
    /// Canonical Multipass (local)
    Multipass(Multipass),
}

impl SomeVmProvider {
    /// The name by which the provider is chosen on the command line.
    pub fn name(&self) -> (name: &'static str)
        ensures
            name@ == match *self {
                SomeVmProvider::Ec2(_) => "ec2"@,
                SomeVmProvider::Gce(_) => "gce"@,
                SomeVmProvider::Multipass(_) => "multipass"@,
            },
    {
        match self {
            SomeVmProvider::Ec2(_) => "ec2",
            SomeVmProvider::Gce(_) => "gce",
            SomeVmProvider::Multipass(_) => "multipass",
        }
    }
}

/// The name that marks every resource made for a machine.
pub fn resource_name() -> (name: &'static str)
    ensures
        name@ == "fleeting"@,
{
    "fleeting"
}

/// What to do after looking at a machine that is starting.
#[derive(Clone, Copy, Debug, PartialEq, Eq, Structural)]
pub enum Poll {
    /// Not yet: look again after this many milliseconds.
    Wait(u64),
    /// The machine runs.
    Ready,
    /// The machine went into a state from which it will not run.
    Failed,
}

/// The error of a machine that went into a state from which it will not
/// run; `state` is the state as the cloud calls it.
pub fn instance_state_failure(state: &str) -> (message: String)
    ensures
        message@ == "instance transitioned into state: "@ + state@,
{
    let mut message = String::from_str("instance transitioned into state: ");
    message.append(state);
    message
}

/// Milliseconds between two looks at a machine that is starting.
pub const POLL_INTERVAL: u64 = SECOND;

/// The character for a group of six bits in the standard base64 alphabet.
pub open spec fn base64_symbol(six: int) -> char {
    if six < 26 {
        ((65 + six) as u8) as char
    } else if six < 52 {
        ((71 + six) as u8) as char
    } else if six < 62 {
        ((six - 4) as u8) as char
    } else if six == 62 {
        '+'
    } else {
        '/'
    }
}

/// The standard base64 encoding with padding: each group of three bytes
/// becomes four characters, and a last group of one or two bytes is filled
/// up with `=`.
pub open spec fn base64_standard(data: Seq<u8>) -> Seq<char>
    decreases data.len(),
{
    if data.len() == 0 {
        Seq::empty()
    } else if data.len() == 1 {
        let a = data[0] as int;
        seq![base64_symbol(a / 4), base64_symbol((a % 4) * 16), '=', '=']
    } else if data.len() == 2 {
        let a = data[0] as int;
        let b = data[1] as int;
        seq![
            base64_symbol(a / 4),
            base64_symbol((a % 4) * 16 + b / 16),
            base64_symbol((b % 16) * 4),
            '=',
        ]
    } else {
        let a = data[0] as int;
        let b = data[1] as int;
        let c = data[2] as int;
        seq![
            base64_symbol(a / 4),
            base64_symbol((a % 4) * 16 + b / 16),
            base64_symbol((b % 16) * 4 + c / 64),
            base64_symbol(c % 64),
        ] + base64_standard(data.skip(3))
    }
}

/// `encode` of `base64::prelude::BASE64_STANDARD`: the engine with the
/// standard alphabet and padding. It fails where the length of the result
/// does not fit the machine's word, which the bound excludes.
#[verifier::external_body]
fn base64_encode(data: &[u8]) -> (encoded: String)
    requires
        data@.len() <= usize::MAX / 2,
    ensures
        encoded@ == base64_standard(data@),
{
    base64::prelude::BASE64_STANDARD.encode(data)
}

/// The bootstrap script as the providers hand it over: its UTF-8 bytes in
/// base64.
pub fn encode_user_data(user_data: &str) -> (encoded: String)
    requires
        user_data.spec_bytes().len() <= usize::MAX / 2,
    ensures
        encoded@ == base64_standard(user_data.spec_bytes()),
{
    base64_encode(user_data.as_bytes())
}

/// The one item of a list that should hold exactly one.
pub fn expect_one<T>(items: Option<Vec<T>>) -> (item: Option<T>)
    ensures
        match items {
            Some(list) => if list@.len() == 1 {
                item == Some(list@[0])
            } else {
                item is None
            },
            None => item is None,
        },
{
    match items {
        Some(mut list) => {
            if list.len() == 1 {
                list.pop()
            } else {
                None
            }
        },
        None => None,
    }
}

} // verus!
