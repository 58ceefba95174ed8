//! The flags that the server is started with, and what holds where a flag
//! is not given.

use crate::prefix::{copy_path, pieces, push_piece, pushed, ServerPrefixError};
use vstd::prelude::*;
use vstd::string::StringExecFns;

verus! {

/// Init flags, as given.
#[derive(Debug, Clone, PartialEq, Eq)]
pub struct InitFlags {
    pub prefix: Option<Vec<String>>,
    pub config_path: Option<Vec<String>>,
    pub je_port: Option<u16>,
    pub be_port: Option<u16>,
    pub daemon: bool,
    pub bind_addr: Option<String>,
}

/// Validated init flags.
/// Values are "validated" in the sense that they are present. They are not necessary *correct*, for example, a path may not point to an existing file.
/// Each value comes with the notes on how it was arrived at.
#[derive(Debug, PartialEq, Eq)]
pub struct ValidatedInitFlags {
    pub prefix: (Vec<String>, Vec<String>),
    pub config_path: (Vec<String>, Vec<String>),
    pub je_port: (u16, Vec<String>),
    pub be_port: (u16, Vec<String>),
    pub bind_addr: (String, Vec<String>),
}

impl Clone for ValidatedInitFlags {
    fn clone(&self) -> (r: Self)
        ensures
            pieces(r.prefix.0@) == pieces(self.prefix.0@),
            pieces(r.prefix.1@) == pieces(self.prefix.1@),
            pieces(r.config_path.0@) == pieces(self.config_path.0@),
            pieces(r.config_path.1@) == pieces(self.config_path.1@),
            r.je_port.0 == self.je_port.0,
            pieces(r.je_port.1@) == pieces(self.je_port.1@),
            r.be_port.0 == self.be_port.0,
            pieces(r.be_port.1@) == pieces(self.be_port.1@),
            r.bind_addr.0@ == self.bind_addr.0@,
            pieces(r.bind_addr.1@) == pieces(self.bind_addr.1@),
    {
        ValidatedInitFlags {
            prefix: (copy_path(self.prefix.0.as_slice()), copy_path(self.prefix.1.as_slice())),
            config_path: (
                copy_path(self.config_path.0.as_slice()),
                copy_path(self.config_path.1.as_slice()),
            ),
            je_port: (self.je_port.0, copy_path(self.je_port.1.as_slice())),
            be_port: (self.be_port.0, copy_path(self.be_port.1.as_slice())),
            bind_addr: (self.bind_addr.0.clone(), copy_path(self.bind_addr.1.as_slice())),
        }
    }
}

/// The pieces of a path with a slash between each two.
pub open spec fn joined(path: Seq<Seq<char>>) -> Seq<char>
    decreases path.len(),
{
    if path.len() == 0 {
        Seq::empty()
    } else if path.len() == 1 {
        path[0]
    } else {
        joined(path.drop_last()) + "/"@ + path.last()
    }
}

/// A path as it is written in a note: its pieces with a slash between each
/// two, in double quotes.
pub open spec fn path_text(path: Seq<Seq<char>>) -> Seq<char> {
    "\""@ + joined(path) + "\""@
}

/// Writes a path as it is written in a note.
pub fn path_string(path: &[String]) -> (r: String)
    ensures
        r@ == path_text(pieces(path@)),
{
    let mut r: String = String::from_str("\"");
    let ghost open = r@;
    let mut i: usize = 0;
    while i < path.len()
        invariant
            i <= path@.len(),
            open == "\""@,
            r@ == open + joined(pieces(path@).take(i as int)),
        decreases path@.len() - i,
    {
        let ghost before = pieces(path@).take(i as int);
        let ghost after = pieces(path@).take(i + 1);
        assert(after.drop_last() =~= before);
        assert(after.last() == path@[i as int]@);
        if i > 0 {
            r.append("/");
        }
        r.append(path[i].as_str());
        assert(r@ =~= open + joined(after));
        i = i + 1;
    }
    assert(pieces(path@).take(path@.len() as int) =~= pieces(path@));
    r.append("\"");
    r
}

/// The flags that are in force where `flags` are given and the server is
/// started in the folder `current_dir`.
pub open spec fn validated(
    flags: InitFlags,
    current_dir: Seq<Seq<char>>,
    v: ValidatedInitFlags,
) -> bool {
    let prefix = match flags.prefix {
        Some(pfx) => pieces(pfx@),
        None => current_dir,
    };
    &&& pieces(v.prefix.0@) == prefix
    &&& pieces(v.prefix.1@) == match flags.prefix {
        Some(_) => Seq::<Seq<char>>::empty(),
        None => seq!["Using current dir "@ + path_text(current_dir) + " as prefix"@],
    }
    &&& pieces(v.config_path.0@) == match flags.config_path {
        Some(cfg_path) => pieces(cfg_path@),
        None => pushed(prefix, "config"@),
    }
    &&& pieces(v.config_path.1@) == match flags.config_path {
        Some(_) => Seq::<Seq<char>>::empty(),
        None => seq!["Using default path "@ + path_text(pushed(prefix, "config"@))],
    }
    &&& v.je_port.0 == match flags.je_port {
        Some(je_port) => je_port,
        None => 25565u16,
    }
    &&& pieces(v.je_port.1@) == match flags.je_port {
        Some(_) => Seq::<Seq<char>>::empty(),
        None => seq!["Using default port 25565"@],
    }
    &&& v.be_port.0 == match flags.be_port {
        Some(be_port) => be_port,
        None => 9999u16,
    }
    &&& pieces(v.be_port.1@) == match flags.be_port {
        Some(_) => Seq::<Seq<char>>::empty(),
        None => seq!["Using default BE port 9999, which is not served yet"@],
    }
    &&& v.bind_addr.0@ == match flags.bind_addr {
        Some(addr) => addr@,
        None => "0.0.0.0"@,
    }
    &&& pieces(v.bind_addr.1@) == match flags.bind_addr {
        Some(_) => Seq::<Seq<char>>::empty(),
        None => seq!["Using default bind address 0.0.0.0"@],
    }
}

/// A list of one note.
fn one_note(note: String) -> (r: Vec<String>)
    ensures
        pieces(r@) == seq![note@],
{
    let mut r: Vec<String> = Vec::new();
    r.push(note);
    assert(pieces(r@) =~= seq![note@]);
    r
}

/// A list of no note.
fn no_note() -> (r: Vec<String>)
    ensures
        pieces(r@) == Seq::<Seq<char>>::empty(),
{
    let r: Vec<String> = Vec::new();
    assert(pieces(r@) =~= Seq::<Seq<char>>::empty());
    r
}

impl InitFlags {
    /// The flags that are in force where the server is started in the
    /// folder `current_dir`. There is always an outcome.
    pub fn to_validated(&self, current_dir: &[String]) -> (r: Result<
        ValidatedInitFlags,
        Vec<String>,
    >)
        ensures
            r matches Ok(v) && validated(*self, pieces(current_dir@), v),
    {
        ValidatedInitFlags::from_init(&self, current_dir)
    }
}

impl ValidatedInitFlags {
    /// The flags that are in force where `init_flags` are given and the
    /// server is started in the folder `current_dir`. There is always an
    /// outcome.
    pub fn from_init(init_flags: &InitFlags, current_dir: &[String]) -> (r: Result<
        ValidatedInitFlags,
        Vec<String>,
    >)
        ensures
            r matches Ok(v) && validated(*init_flags, pieces(current_dir@), v),
    {
        let prefix: (Vec<String>, Vec<String>) = match &init_flags.prefix {
            Some(pfx) => (copy_path(pfx.as_slice()), no_note()),
            None => {
                // use current dir as prefix
                // add warning
                let mut note: String = String::from_str("Using current dir ");
                note.append(path_string(current_dir).as_str());
                note.append(" as prefix");
                (copy_path(current_dir), one_note(note))
            },
        };
        let config_path: (Vec<String>, Vec<String>) = match &init_flags.config_path {
            Some(cfg_path) => (copy_path(cfg_path.as_slice()), no_note()),
            None => {
                let def_path: Vec<String> = push_piece(prefix.0.as_slice(), "config");
                let mut note: String = String::from_str("Using default path ");
                note.append(path_string(def_path.as_slice()).as_str());
                (def_path, one_note(note))
            },
        };
        let je_port: (u16, Vec<String>) = match init_flags.je_port {
            Some(je_port) => (je_port, no_note()),
            None => (25565, one_note("Using default port 25565".to_owned())),
        };
        let be_port: (u16, Vec<String>) = match init_flags.be_port {
            Some(be_port) => (be_port, no_note()),
            None => (9999, one_note("Using default BE port 9999, which is not served yet".to_owned())),
        };
        let bind_addr: (String, Vec<String>) = match &init_flags.bind_addr {
            Some(addr) => (addr.clone(), no_note()),
            None => (
                "0.0.0.0".to_owned(),
                one_note("Using default bind address 0.0.0.0".to_owned()),
            ),
        };
        Ok(ValidatedInitFlags { prefix, config_path, je_port, be_port, bind_addr })
    }

    /// The errors among the outcomes of making the folders of the prefix,
    /// each in its words, in the order of the outcomes. `outcomes` holds,
    /// for each folder that was tried, its path and what went wrong, if
    /// anything.
    pub fn try_create_prefix(&self, outcomes: &[(Vec<String>, Option<ServerPrefixError>)]) -> (r:
        Vec<String>)
        ensures
            pieces(r@) == error_texts(outcomes@),
    {
        let mut errs: Vec<String> = Vec::new();
        assert(pieces(errs@) =~= error_texts(outcomes@.take(0)));
        let mut i: usize = 0;
        while i < outcomes.len()
            invariant
                i <= outcomes@.len(),
                pieces(errs@) == error_texts(outcomes@.take(i as int)),
            decreases outcomes@.len() - i,
        {
            let ghost before = outcomes@.take(i as int);
            let ghost after = outcomes@.take(i + 1);
            assert(after.drop_last() =~= before);
            assert(after.last() == outcomes@[i as int]);
            match &outcomes[i].1 {
                Some(a) => {
                    errs.push(a.to_string());
                    assert(pieces(errs@) =~= error_texts(after));
                },
                None => {},
            }
            i = i + 1;
        }
        assert(outcomes@.take(outcomes@.len() as int) =~= outcomes@);
        errs
    }
}

/// The words of the errors among `outcomes`, in order.
pub open spec fn error_texts(outcomes: Seq<(Vec<String>, Option<ServerPrefixError>)>) -> Seq<
    Seq<char>,
>
    decreases outcomes.len(),
{
    if outcomes.len() == 0 {
        Seq::empty()
    } else {
        let before = error_texts(outcomes.drop_last());
        match outcomes.last().1 {
            Some(e) => before.push(e.text()),
            None => before,
        }
    }
}

} // verus!
