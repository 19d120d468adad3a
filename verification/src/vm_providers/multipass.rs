//! Canonical Multipass, the local provider: the command lines to run and
//! what to make of their answers.

use super::{base64_standard, encode_user_data};
use crate::address::Ipv4;
use crate::text::{decimal, has_prefix, push_decimal, same_text, starts_with, texts, trim, trimmed};
use vstd::prelude::*;
use vstd::string::*;

verus! {

/// The options of the provider.
pub struct Multipass {
    /// CPUs.
    pub cpus: Option<usize>,
    /// Memory, in GBs.
    pub memory: Option<usize>,
    /// Disk size, in GiBs.
    pub disk: Option<usize>,
}

/// A machine as Multipass lists it.
pub struct VM {
    pub name: String,
    pub ipv4: Vec<Ipv4>,
    pub state: String,
}

/// Why the address of the launched machine could not be had.
#[derive(Clone, Copy, Debug, PartialEq, Eq, Structural)]
pub enum AddressError {
    /// The list does not hold the machine.
    VmNotFound,
    /// The machine has no address.
    NoAddress,
}

/// Whether a machine is left over from an earlier run: one of ours that has
/// stopped.
pub open spec fn is_orphan(vm: VM) -> bool {
    has_prefix(vm.name@, "fleeting-"@) && vm.state@ == "Stopped"@
}

/// The names of the machines that are left over, in the order of the list.
pub open spec fn orphan_names(vms: Seq<VM>) -> Seq<Seq<char>>
    decreases vms.len(),
{
    if vms.len() == 0 {
        Seq::empty()
    } else if is_orphan(vms.last()) {
        orphan_names(vms.drop_last()).push(vms.last().name@)
    } else {
        orphan_names(vms.drop_last())
    }
}

/// The position of the first machine called `name` at or after `from`.
pub open spec fn position_of(vms: Seq<VM>, name: Seq<char>, from: int) -> Option<int>
    decreases vms.len() - from,
{
    if from < 0 || from >= vms.len() {
        None
    } else if vms[from].name@ == name {
        Some(from)
    } else {
        position_of(vms, name, from + 1)
    }
}

/// The words of an option that takes a number, where the option is set.
pub open spec fn option_words(flag: Seq<char>, value: Option<usize>) -> Seq<Seq<char>> {
    match value {
        Some(n) => seq![flag, decimal(n as nat)],
        None => Seq::empty(),
    }
}

/// The cloud-init document that stores the bootstrap script on the machine
/// and runs it in the background.
pub open spec fn cloud_init_text(user_data: Seq<u8>) -> Seq<char> {
    "#cloud-config\nwrite_files:\n  - path: /fleeting-init\n    encoding: b64\n    content: \""@
        + base64_standard(user_data)
        + "\"\nruncmd:\n  - chmod +x /fleeting-init\n  - /fleeting-init &\n"@
}

/// Appends one word to a command line.
fn push_word(command: &mut Vec<String>, word: &str)
    ensures
        texts(final(command)@) == texts(old(command)@).push(word@),
{
    command.push(word.to_owned());
    assert(texts(command@) =~= texts(old(command)@).push(word@));
}

/// Appends an option that takes a number, where the option is set.
fn push_option(command: &mut Vec<String>, flag: &str, value: Option<usize>)
    ensures
        texts(final(command)@) == texts(old(command)@) + option_words(flag@, value),
{
    match value {
        Some(n) => {
            push_word(command, flag);
            let mut number = String::new();
            push_decimal(&mut number, n as u64);
            assert(Seq::<char>::empty() + decimal(n as nat) =~= decimal(n as nat));
            push_word(command, number.as_str());
            assert(texts(command@) =~= texts(old(command)@) + option_words(flag@, value));
        },
        None => {
            assert(texts(command@) =~= texts(old(command)@) + option_words(flag@, value));
        },
    }
}

impl Multipass {
    /// The command that asks Multipass for its version.
    pub fn version_command() -> (command: Vec<String>)
        ensures
            texts(command@) == seq!["multipass"@, "version"@, "--format"@, "json"@],
    {
        let mut command: Vec<String> = Vec::new();
        push_word(&mut command, "multipass");
        push_word(&mut command, "version");
        push_word(&mut command, "--format");
        push_word(&mut command, "json");
        assert(texts(command@) =~= seq!["multipass"@, "version"@, "--format"@, "json"@]);
        command
    }

    /// The command that lists the machines.
    pub fn list_command() -> (command: Vec<String>)
        ensures
            texts(command@) == seq!["multipass"@, "list"@, "--format"@, "json"@],
    {
        let mut command: Vec<String> = Vec::new();
        push_word(&mut command, "multipass");
        push_word(&mut command, "list");
        push_word(&mut command, "--format");
        push_word(&mut command, "json");
        assert(texts(command@) =~= seq!["multipass"@, "list"@, "--format"@, "json"@]);
        command
    }

    /// Picks the machines that are left over from earlier runs.
    pub fn orphans(vms: &Vec<VM>) -> (names: Vec<String>)
        ensures
            texts(names@) == orphan_names(vms@),
    {
        let mut names: Vec<String> = Vec::new();
        let mut i: usize = 0;
        assert(vms@.take(0) =~= Seq::<VM>::empty());
        assert(texts(names@) =~= Seq::<Seq<char>>::empty());
        while i < vms.len()
            invariant
                i <= vms.len(),
                texts(names@) == orphan_names(vms@.take(i as int)),
            decreases vms.len() - i,
        {
            let vm = &vms[i];
            assert(vms@.take(i + 1).drop_last() =~= vms@.take(i as int));
            assert(vms@.take(i + 1).last() == vms@[i as int]);
            if starts_with(vm.name.as_str(), "fleeting-") && same_text(vm.state.as_str(), "Stopped") {
                let ghost before = texts(names@);
                names.push(vm.name.clone());
                assert(texts(names@) =~= before.push(vm.name@));
            }
            i += 1;
        }
        assert(vms@.take(vms.len() as int) =~= vms@);
        names
    }

    /// The command that deletes the machines called `names` for good; none
    /// where there is nothing to delete.
    pub fn purge_command(names: &Vec<String>) -> (command: Option<Vec<String>>)
        ensures
            names.len() == 0 <==> command is None,
            command is Some ==> texts(command->0@) == seq![
                "multipass"@,
                "delete"@,
                "--purge"@,
            ] + texts(names@),
    {
        if names.len() == 0 {
            return None;
        }
        let mut command: Vec<String> = Vec::new();
        push_word(&mut command, "multipass");
        push_word(&mut command, "delete");
        push_word(&mut command, "--purge");
        let ghost head = seq!["multipass"@, "delete"@, "--purge"@];
        assert(texts(command@) =~= head);
        let mut i: usize = 0;
        while i < names.len()
            invariant
                i <= names.len(),
                texts(command@) == head + texts(names@).take(i as int),
            decreases names.len() - i,
        {
            let ghost before = texts(command@);
            push_word(&mut command, names[i].as_str());
            assert(texts(names@).take(i + 1) =~= texts(names@).take(i as int).push(
                names@[i as int]@,
            ));
            assert(before.push(names@[i as int]@) =~= head + texts(names@).take(i + 1));
            i += 1;
        }
        assert(texts(names@).take(names.len() as int) =~= texts(names@));
        Some(command)
    }

    /// Names the machine of the process `pid`.
    pub fn vm_name(pid: u32) -> (name: String)
        ensures
            name@ == "fleeting-"@ + decimal(pid as nat),
    {
        let mut name = String::from_str("fleeting-");
        push_decimal(&mut name, pid as u64);
        name
    }

    /// Writes the cloud-init document for a bootstrap script.
    pub fn cloud_init(user_data: &str) -> (document: String)
        requires
            user_data.spec_bytes().len() <= usize::MAX / 2,
        ensures
            document@ == cloud_init_text(user_data.spec_bytes()),
    {
        let mut document = String::from_str(
            "#cloud-config\nwrite_files:\n  - path: /fleeting-init\n    encoding: b64\n    content: \"",
        );
        document.append(encode_user_data(user_data).as_str());
        document.append("\"\nruncmd:\n  - chmod +x /fleeting-init\n  - /fleeting-init &\n");
        document
    }

    /// The command that launches the machine called `name`; it reads the
    /// cloud-init document from its standard input.
    pub fn launch_command(&self, name: &str) -> (command: Vec<String>)
        ensures
            texts(command@) == seq![
                "multipass"@,
                "launch"@,
                "--name"@,
                name@,
                "--cloud-init"@,
                "-"@,
                "24.04"@,
            ] + option_words("--cpus"@, self.cpus) + option_words("--memory"@, self.memory)
                + option_words("--disk"@, self.disk),
    {
        let mut command: Vec<String> = Vec::new();
        push_word(&mut command, "multipass");
        push_word(&mut command, "launch");
        push_word(&mut command, "--name");
        push_word(&mut command, name);
        push_word(&mut command, "--cloud-init");
        push_word(&mut command, "-");
        push_word(&mut command, "24.04");
        assert(texts(command@) =~= seq![
            "multipass"@,
            "launch"@,
            "--name"@,
            name@,
            "--cloud-init"@,
            "-"@,
            "24.04"@,
        ]);
        push_option(&mut command, "--cpus", self.cpus);
        push_option(&mut command, "--memory", self.memory);
        push_option(&mut command, "--disk", self.disk);
        command
    }

    /// The message of a failed launch: how the command ended, and what it
    /// wrote to its standard error, trimmed.
    pub fn launch_failure(status: &str, stderr: &str) -> (message: String)
        ensures
            message@ == "launch failed with "@ + status@ + ": "@ + trimmed(stderr@),
    {
        let mut message = String::from_str("launch failed with ");
        message.append(status);
        message.append(": ");
        message.append(trim(stderr).as_str());
        message
    }

    /// Finds the address of the machine called `name`: the first address of
    /// the first machine of that name in the list.
    pub fn address_of(vms: &Vec<VM>, name: &str) -> (address: Result<Ipv4, AddressError>)
        ensures
            match position_of(vms@, name@, 0) {
                None => address == Err::<Ipv4, AddressError>(AddressError::VmNotFound),
                Some(at) => if vms@[at].ipv4@.len() == 0 {
                    address == Err::<Ipv4, AddressError>(AddressError::NoAddress)
                } else {
                    address == Ok::<Ipv4, AddressError>(vms@[at].ipv4@[0])
                },
            },
    {
        let mut i: usize = 0;
        while i < vms.len()
            invariant
                i <= vms.len(),
                position_of(vms@, name@, 0) == position_of(vms@, name@, i as int),
            decreases vms.len() - i,
        {
            if same_text(vms[i].name.as_str(), name) {
                if vms[i].ipv4.len() == 0 {
                    return Err(AddressError::NoAddress);
                }
                return Ok(vms[i].ipv4[0]);
            }
            i += 1;
        }
        Err(AddressError::VmNotFound)
    }
}

impl AddressError {
    /// The message of the error.
    pub fn message(&self) -> (message: &'static str)
        ensures
            message@ == match *self {
                AddressError::VmNotFound => "vm that was started should be found"@,
                AddressError::NoAddress => "vm should have an ip"@,
            },
    {
        match self {
            AddressError::VmNotFound => "vm that was started should be found",
            AddressError::NoAddress => "vm should have an ip",
        }
    }
}

} // verus!
