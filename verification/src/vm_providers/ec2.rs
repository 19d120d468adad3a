//! AWS Elastic Compute Cloud: the decisions between the calls into the cloud.

use super::{Poll, POLL_INTERVAL};
use crate::arch::Arch;
use crate::text::{decimal, push_decimal, same_text};
use vstd::prelude::*;
use vstd::string::*;

verus! {

/// The options of the provider.
pub struct Ec2 {
    /// The region to launch in; without one the environment, the profile and
    /// the instance metadata are asked, and `us-east-1` is the last resort.
    pub region: Option<String>,
    /// The type of the instance.
    pub instance_type: String,
    /// Disk size, in GiBs.
    pub disk: Option<usize>,
}

/// An architecture that an instance type supports, as the cloud reports it.
#[derive(Clone, Copy, Debug, PartialEq, Eq, Structural)]
pub enum ArchitectureType {
    Arm64,
    Arm64Mac,
    I386,
    X8664,
    X8664Mac,
    /// An architecture that this library does not know.
    Unknown,
}

/// The instance type supports neither of the architectures for which there
/// is an image.
#[derive(Clone, Copy, Debug, PartialEq, Eq, Structural)]
pub struct UnsupportedArchitectures;

/// A state of an instance, as the cloud reports it.
#[derive(Clone, Copy, Debug, PartialEq, Eq, Structural)]
pub enum InstanceStateName {
    Pending,
    Running,
    ShuttingDown,
    Stopped,
    Stopping,
    Terminated,
    /// A state that this library does not know.
    Unknown,
}

/// What a look at the launched instance gave.
#[derive(Clone, Copy, Debug, PartialEq, Eq, Structural)]
pub enum InstanceLookup {
    /// The instance is in this state.
    State(InstanceStateName),
    /// The cloud does not know the instance yet; this passes.
    NotFoundYet,
    /// The call failed otherwise.
    Failed,
}

/// What the search for the security group gave.
pub enum GroupLookup {
    /// The ids of the groups of that name.
    Found(Vec<String>),
    /// The call failed, with this error code if the service gave one.
    Failed(Option<String>),
}

/// What to do about the security group.
pub enum GroupDecision {
    /// Use the group with this id.
    Use(String),
    /// Create the group and open it.
    Create,
    /// Give up: this many groups have the name.
    Ambiguous(usize),
    /// Give up: the search failed.
    LookupFailed,
}

/// The architecture to launch with: ARM where the instance type supports
/// it, else x86-64 where it supports that.
pub open spec fn preferred_arch(supported: Seq<ArchitectureType>) -> Option<Arch> {
    if supported.contains(ArchitectureType::Arm64) {
        Some(Arch::Arm64)
    } else if supported.contains(ArchitectureType::X8664) {
        Some(Arch::Amd64)
    } else {
        None
    }
}

/// The parameter that resolves to the current Ubuntu 24.04 image of an
/// architecture.
pub open spec fn image_parameter(arch: Arch) -> Seq<char> {
    "resolve:ssm:/aws/service/canonical/ubuntu/server/24.04/stable/current/"@ + arch.dpkg_text()
        + "/hvm/ebs-gp3/ami-id"@
}

/// What to do about the security group after the search for it.
pub open spec fn group_decision(lookup: GroupLookup) -> GroupDecision {
    match lookup {
        GroupLookup::Found(ids) => if ids.len() == 0 {
            GroupDecision::Create
        } else if ids.len() == 1 {
            GroupDecision::Use(ids[0])
        } else {
            GroupDecision::Ambiguous(ids.len())
        },
        GroupLookup::Failed(Some(code)) => if code@ == "InvalidGroup.NotFound"@ {
            GroupDecision::Create
        } else {
            GroupDecision::LookupFailed
        },
        GroupLookup::Failed(None) => GroupDecision::LookupFailed,
    }
}

/// Decides whether `supported` holds `wanted`.
fn supports(supported: &Vec<ArchitectureType>, wanted: ArchitectureType) -> (r: bool)
    ensures
        r == supported@.contains(wanted),
{
    let mut i: usize = 0;
    while i < supported.len()
        invariant
            i <= supported.len(),
            forall|k: int| 0 <= k < i ==> supported@[k] != wanted,
        decreases supported.len() - i,
    {
        if supported[i] == wanted {
            return true;
        }
        i += 1;
    }
    false
}

impl Ec2 {
    /// The name of the security group of the machines.
    pub fn security_group_name() -> (name: &'static str)
        ensures
            name@ == "fleeting"@,
    {
        "fleeting"
    }

    /// The region of last resort.
    pub fn fallback_region() -> (region: &'static str)
        ensures
            region@ == "us-east-1"@,
    {
        "us-east-1"
    }

    /// The description of the security group.
    pub fn security_group_description() -> (description: &'static str)
        ensures
            description@ == "fleeting ephemeral instances"@,
    {
        "fleeting ephemeral instances"
    }

    /// What the security group lets in: every protocol, from everywhere.
    pub fn ingress_rule() -> (rule: (&'static str, &'static str))
        ensures
            rule.0@ == "-1"@,
            rule.1@ == "0.0.0.0/0"@,
    {
        ("-1", "0.0.0.0/0")
    }

    /// The error code by which the service says that an instance is not
    /// known yet.
    pub fn instance_not_found_code() -> (code: &'static str)
        ensures
            code@ == "InvalidInstanceID.NotFound"@,
    {
        "InvalidInstanceID.NotFound"
    }

    /// The device of the root volume.
    pub fn root_device() -> (device: &'static str)
        ensures
            device@ == "/dev/sda1"@,
    {
        "/dev/sda1"
    }

    /// The image parameter for an architecture: every architecture has one.
    pub fn image_for(arch: Arch) -> (image: String)
        ensures
            image@ == image_parameter(arch),
    {
        let mut image = String::from_str(
            "resolve:ssm:/aws/service/canonical/ubuntu/server/24.04/stable/current/",
        );
        image.append(arch.as_dpkg());
        image.append("/hvm/ebs-gp3/ami-id");
        image
    }

    /// Chooses the image for an instance type from the architectures that
    /// the type supports.
    ///
    /// Whatever the cloud reports, either an image comes back or the launch
    /// is refused for want of a supported architecture; nothing else happens.
    pub fn resolve_image(supported: &Vec<ArchitectureType>) -> (image: Result<
        String,
        UnsupportedArchitectures,
    >)
        ensures
            match preferred_arch(supported@) {
                Some(arch) => image is Ok && image->Ok_0@ == image_parameter(arch),
                None => image is Err,
            },
    {
        if supports(supported, ArchitectureType::Arm64) {
            Ok(Ec2::image_for(Arch::Arm64))
        } else if supports(supported, ArchitectureType::X8664) {
            Ok(Ec2::image_for(Arch::Amd64))
        } else {
            Err(UnsupportedArchitectures)
        }
    }

    /// The size of the root volume as the cloud takes it, where one was
    /// chosen and the cloud's number can hold it.
    pub fn volume_size(&self) -> (size: Result<Option<i32>, usize>)
        ensures
            match self.disk {
                None => size == Ok::<Option<i32>, usize>(None),
                Some(gib) => if gib <= i32::MAX {
                    size == Ok::<Option<i32>, usize>(Some(gib as i32))
                } else {
                    size == Err::<Option<i32>, usize>(gib)
                },
            },
    {
        match self.disk {
            None => Ok(None),
            Some(gib) => if gib <= 0x7fff_ffff {
                Ok(Some(gib as i32))
            } else {
                Err(gib)
            },
        }
    }

    /// Decides what to do about the security group.
    ///
    /// No group of the name, or the service's word that there is none, asks
    /// for its creation; one group is used; anything else is an error.
    pub fn security_group(lookup: GroupLookup) -> (decision: GroupDecision)
        ensures
            decision == group_decision(lookup),
    {
        match lookup {
            GroupLookup::Found(mut ids) => {
                let count = ids.len();
                if count == 0 {
                    GroupDecision::Create
                } else if count == 1 {
                    let ghost before = ids@;
                    let id = ids.remove(0);
                    assert(id == before[0]);
                    GroupDecision::Use(id)
                } else {
                    GroupDecision::Ambiguous(count)
                }
            },
            GroupLookup::Failed(Some(code)) => {
                if same_text(code.as_str(), "InvalidGroup.NotFound") {
                    GroupDecision::Create
                } else {
                    GroupDecision::LookupFailed
                }
            },
            GroupLookup::Failed(None) => GroupDecision::LookupFailed,
        }
    }

    /// Decides what to do after a look at the launched instance: wait while
    /// it is pending or not yet known, go on once it runs, give up otherwise.
    pub fn poll_instance(lookup: InstanceLookup) -> (poll: Poll)
        ensures
            poll == match lookup {
                InstanceLookup::State(InstanceStateName::Pending) => Poll::Wait(POLL_INTERVAL),
                InstanceLookup::State(InstanceStateName::Running) => Poll::Ready,
                InstanceLookup::State(_) => Poll::Failed,
                InstanceLookup::NotFoundYet => Poll::Wait(POLL_INTERVAL),
                InstanceLookup::Failed => Poll::Failed,
            },
    {
        match lookup {
            InstanceLookup::State(InstanceStateName::Pending) => Poll::Wait(POLL_INTERVAL),
            InstanceLookup::State(InstanceStateName::Running) => Poll::Ready,
            InstanceLookup::State(_) => Poll::Failed,
            InstanceLookup::NotFoundYet => Poll::Wait(POLL_INTERVAL),
            InstanceLookup::Failed => Poll::Failed,
        }
    }
}

impl UnsupportedArchitectures {
    /// The message of the error; `reported` lists what the cloud reported.
    pub fn message(&self, reported: &str) -> (message: String)
        ensures
            message@ == "unsupported instance type architectures: "@ + reported@,
    {
        let mut message = String::from_str("unsupported instance type architectures: ");
        message.append(reported);
        message
    }
}

impl GroupDecision {
    /// The message of the error for more than one group of the name.
    pub fn ambiguous_message(count: usize) -> (message: String)
        ensures
            message@ == decimal(count as nat) + " matching security groups"@,
    {
        let mut message = String::new();
        push_decimal(&mut message, count as u64);
        message.append(" matching security groups");
        assert(Seq::<char>::empty() + decimal(count as nat) =~= decimal(count as nat));
        message
    }
}

/// The choice of an image covers every architecture: each has an image,
/// a type that supports ARM gets the ARM one, a type that supports only
/// x86-64 of the two gets that one, and every other type is refused.
pub proof fn lemma_image_choice_is_total(supported: Seq<ArchitectureType>, arch: Arch)
    ensures
        image_parameter(arch).len() > 0,
        supported.contains(ArchitectureType::Arm64) ==> preferred_arch(supported) == Some(
            Arch::Arm64,
        ),
        !supported.contains(ArchitectureType::Arm64) && supported.contains(
            ArchitectureType::X8664,
        ) ==> preferred_arch(supported) == Some(Arch::Amd64),
        !supported.contains(ArchitectureType::Arm64) && !supported.contains(
            ArchitectureType::X8664,
        ) ==> preferred_arch(supported) is None,
{
    reveal_strlit("/hvm/ebs-gp3/ami-id");
}

} // verus!
