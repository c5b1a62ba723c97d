use vstd::prelude::*;
use vstd::string::*;

verus! {

/// One call of an outside tool: the program, its arguments in order, and what is
/// written to its standard input before that is closed. It may hold the
/// password, so it cannot be printed.
#[derive(PartialEq, Eq)]
pub struct Invocation {
    pub program: String,
    pub args: Vec<String>,
    /// `None` where nothing is written.
    pub input: Option<String>,
}

pub struct InvocationView {
    pub program: Seq<char>,
    pub args: Seq<Seq<char>>,
    pub input: Option<Seq<char>>,
}

/// The characters of each string of a list.
pub open spec fn texts(list: Seq<String>) -> Seq<Seq<char>> {
    Seq::new(list.len(), |i: int| list[i]@)
}

impl View for Invocation {
    type V = InvocationView;

    open spec fn view(&self) -> InvocationView {
        InvocationView {
            program: self.program@,
            args: texts(self.args@),
            input: match self.input {
                Some(text) => Some(text@),
                None => None,
            },
        }
    }
}

/// `tar` writes the archive `archive` of the entry `name` of the directory `base`.
/// The paths inside the archive start at `name`.
pub open spec fn pack_command(archive: Seq<char>, base: Seq<char>, name: Seq<char>)
    -> InvocationView {
    InvocationView {
        program: "tar"@,
        args: seq!["-cf"@, archive, "-C"@, base, name],
        input: None,
    }
}

/// `tar` unpacks the archive `archive` into the directory `directory`.
pub open spec fn unpack_command(archive: Seq<char>, directory: Seq<char>) -> InvocationView {
    InvocationView {
        program: "tar"@,
        args: seq!["-xf"@, archive, "-C"@, directory],
        input: None,
    }
}

/// The arguments by which `openssl` enciphers `source` into `target`, or deciphers
/// it with `decipher`: AES-256 in CBC mode, salted, the key derived by PBKDF2, the
/// password read from standard input.
pub open spec fn cipher_arguments(decipher: bool, source: Seq<char>, target: Seq<char>) -> Seq<
    Seq<char>,
> {
    if decipher {
        seq![
            "enc"@,
            "-aes-256-cbc"@,
            "-d"@,
            "-salt"@,
            "-pbkdf2"@,
            "-pass"@,
            "stdin"@,
            "-in"@,
            source,
            "-out"@,
            target,
        ]
    } else {
        seq![
            "enc"@,
            "-aes-256-cbc"@,
            "-salt"@,
            "-pbkdf2"@,
            "-pass"@,
            "stdin"@,
            "-in"@,
            source,
            "-out"@,
            target,
        ]
    }
}

/// `openssl` enciphers or deciphers `source` into `target`. The password goes to
/// its standard input and stands in no argument.
pub open spec fn cipher_command(
    decipher: bool,
    source: Seq<char>,
    target: Seq<char>,
    password: Seq<char>,
) -> InvocationView {
    InvocationView {
        program: "openssl"@,
        args: cipher_arguments(decipher, source, target),
        input: Some(password),
    }
}

/// The switch that hands `7z` the password: none for the empty password.
pub open spec fn password_switch(password: Seq<char>) -> Seq<Seq<char>> {
    if password.len() == 0 {
        Seq::empty()
    } else {
        seq!["-p"@ + password]
    }
}

/// `7z` packs `folder` into the archive `archive`, enciphered with its names
/// where a password is given.
pub open spec fn seven_zip_create(archive: Seq<char>, folder: Seq<char>, password: Seq<char>)
    -> InvocationView {
    InvocationView {
        program: "7z"@,
        args: seq!["a"@, "-t7z"@, "-mhe=on"@] + password_switch(password) + seq![archive, folder],
        input: None,
    }
}

/// `7z` unpacks the archive `archive` into the directory `directory`.
pub open spec fn seven_zip_extract(
    archive: Seq<char>,
    directory: Seq<char>,
    password: Seq<char>,
) -> InvocationView {
    InvocationView {
        program: "7z"@,
        args: seq!["x"@] + password_switch(password) + seq![archive, "-o"@ + directory],
        input: None,
    }
}

fn push_text(list: &mut Vec<String>, text: &str)
    ensures
        texts(final(list)@) == texts(old(list)@).push(text@),
{
    list.push(String::from_str(text));
    assert(texts(list@) =~= texts(old(list)@).push(text@));
}

fn push_joined(list: &mut Vec<String>, head: &str, tail: &str)
    ensures
        texts(final(list)@) == texts(old(list)@).push(head@ + tail@),
{
    let mut item = String::from_str(head);
    item.append(tail);
    list.push(item);
    assert(texts(list@) =~= texts(old(list)@).push(head@ + tail@));
}

fn push_password_switch(list: &mut Vec<String>, password: &str)
    ensures
        texts(final(list)@) == texts(old(list)@) + password_switch(password@),
{
    if password.unicode_len() == 0 {
        assert(texts(list@) + password_switch(password@) =~= texts(list@));
    } else {
        push_joined(list, "-p", password);
        assert(texts(old(list)@).push("-p"@ + password@) =~= texts(old(list)@) + password_switch(
            password@,
        ));
    }
}

impl Invocation {
    /// The call of `tar` that packs the entry `name` of `base` into `archive`.
    pub fn pack(archive: &str, base: &str, name: &str) -> (call: Invocation)
        ensures
            call@ == pack_command(archive@, base@, name@),
    {
        let mut args: Vec<String> = Vec::new();
        assert(texts(args@) =~= Seq::empty());
        push_text(&mut args, "-cf");
        push_text(&mut args, archive);
        push_text(&mut args, "-C");
        push_text(&mut args, base);
        push_text(&mut args, name);
        assert(texts(args@) =~= seq!["-cf"@, archive@, "-C"@, base@, name@]);
        Invocation { program: String::from_str("tar"), args, input: None }
    }

    /// The call of `tar` that unpacks `archive` into `directory`.
    pub fn unpack(archive: &str, directory: &str) -> (call: Invocation)
        ensures
            call@ == unpack_command(archive@, directory@),
    {
        let mut args: Vec<String> = Vec::new();
        assert(texts(args@) =~= Seq::empty());
        push_text(&mut args, "-xf");
        push_text(&mut args, archive);
        push_text(&mut args, "-C");
        push_text(&mut args, directory);
        assert(texts(args@) =~= seq!["-xf"@, archive@, "-C"@, directory@]);
        Invocation { program: String::from_str("tar"), args, input: None }
    }

    /// The call of `openssl` that enciphers `source` into `target`, or deciphers
    /// it with `decipher`, under `password`.
    pub fn cipher(decipher: bool, source: &str, target: &str, password: &str) -> (call: Invocation)
        ensures
            call@ == cipher_command(decipher, source@, target@, password@),
    {
        let mut args: Vec<String> = Vec::new();
        assert(texts(args@) =~= Seq::empty());
        push_text(&mut args, "enc");
        push_text(&mut args, "-aes-256-cbc");
        if decipher {
            push_text(&mut args, "-d");
        }
        push_text(&mut args, "-salt");
        push_text(&mut args, "-pbkdf2");
        push_text(&mut args, "-pass");
        push_text(&mut args, "stdin");
        push_text(&mut args, "-in");
        push_text(&mut args, source);
        push_text(&mut args, "-out");
        push_text(&mut args, target);
        assert(texts(args@) =~= cipher_arguments(decipher, source@, target@));
        Invocation {
            program: String::from_str("openssl"),
            args,
            input: Some(String::from_str(password)),
        }
    }

    /// The call of `7z` that packs `folder` into `archive` under `password`.
    pub fn seven_zip_pack(archive: &str, folder: &str, password: &str) -> (call: Invocation)
        ensures
            call@ == seven_zip_create(archive@, folder@, password@),
    {
        let mut args: Vec<String> = Vec::new();
        assert(texts(args@) =~= Seq::empty());
        push_text(&mut args, "a");
        push_text(&mut args, "-t7z");
        push_text(&mut args, "-mhe=on");
        assert(texts(args@) =~= seq!["a"@, "-t7z"@, "-mhe=on"@]);
        push_password_switch(&mut args, password);
        let ghost front = texts(args@);
        push_text(&mut args, archive);
        push_text(&mut args, folder);
        assert(texts(args@) =~= front + seq![archive@, folder@]);
        Invocation { program: String::from_str("7z"), args, input: None }
    }

    /// The call of `7z` that unpacks `archive` into `directory` under `password`.
    pub fn seven_zip_unpack(archive: &str, directory: &str, password: &str) -> (call: Invocation)
        ensures
            call@ == seven_zip_extract(archive@, directory@, password@),
    {
        let mut args: Vec<String> = Vec::new();
        assert(texts(args@) =~= Seq::empty());
        push_text(&mut args, "x");
        assert(texts(args@) =~= seq!["x"@]);
        push_password_switch(&mut args, password);
        let ghost front = texts(args@);
        push_text(&mut args, archive);
        push_joined(&mut args, "-o", directory);
        assert(texts(args@) =~= front + seq![archive@, "-o"@ + directory@]);
        Invocation { program: String::from_str("7z"), args, input: None }
    }
}

} // verus!
