//! Reading login sessions out of desktop entry files.

use freedesktop_entry_parser::Entry;
use vstd::prelude::*;

use crate::sessions::{exec_words, opt_view, parse_exec, Session, SessionType, SessionView};

verus! {

#[verifier::external_type_specification]
#[verifier::external_body]
pub struct ExEntry(Entry);

/// Whether `freedesktop_entry_parser` accepts `contents` as an entry file.
pub uninterp spec fn desktop_entry_parses(contents: Seq<u8>) -> bool;

/// The value (without parameter) that `freedesktop_entry_parser` gives for attribute `key`
/// of section `section` in the entry parsed from `contents`.
pub uninterp spec fn desktop_entry_value(contents: Seq<u8>, section: Seq<char>, key: Seq<char>) -> Option<Seq<char>>;

/// A parsed desktop entry file, together with the bytes it was parsed from.
pub struct DesktopEntry {
    entry: Entry,
    contents: Vec<u8>,
}

impl View for DesktopEntry {
    type V = Seq<u8>;

    closed spec fn view(&self) -> Seq<u8> {
        self.contents@
    }
}

/// Parses the bytes of a desktop entry file with `freedesktop_entry_parser::Entry::parse`.
/// Claims that parsing succeeds exactly when `desktop_entry_parses` holds of the bytes, and
/// that the result remembers those bytes.
#[verifier::external_body]
fn parse_entry_bytes(contents: &[u8]) -> (res: Option<DesktopEntry>)
    ensures
        res is Some <==> desktop_entry_parses(contents@),
        res matches Some(e) ==> e@ == contents@,
{
    match Entry::parse(contents.to_vec()) {
        Ok(entry) => Some(DesktopEntry { entry, contents: contents.to_vec() }),
        Err(_) => None,
    }
}

/// Looks up an attribute with `freedesktop_entry_parser`'s `AttrSelector::attr` on
/// `Entry::section`. Claims that the value is `desktop_entry_value` of the entry's bytes,
/// the section name and the key.
#[verifier::external_body]
fn entry_value(entry: &DesktopEntry, section: &str, key: &str) -> (res: Option<String>)
    ensures
        opt_view(res) == desktop_entry_value(entry@, section@, key@),
{
    entry.entry.section(section).attr(key).map(|v| v.to_string())
}

/// The attributes of a `[Desktop Entry]` section that a session is made from.
#[derive(Debug, Clone)]
pub struct DesktopAttrs {
    pub kind: Option<String>,
    pub hidden: Option<String>,
    pub no_display: Option<String>,
    pub name: Option<String>,
    pub exec_line: Option<String>,
    pub try_exec: Option<String>,
    pub comment: Option<String>,
    pub desktop_names: Option<String>,
    pub icon: Option<String>,
}

/// The attributes as plain values.
pub struct DesktopAttrsView {
    pub kind: Option<Seq<char>>,
    pub hidden: Option<Seq<char>>,
    pub no_display: Option<Seq<char>>,
    pub name: Option<Seq<char>>,
    pub exec_line: Option<Seq<char>>,
    pub try_exec: Option<Seq<char>>,
    pub comment: Option<Seq<char>>,
    pub desktop_names: Option<Seq<char>>,
    pub icon: Option<Seq<char>>,
}

impl View for DesktopAttrs {
    type V = DesktopAttrsView;

    open spec fn view(&self) -> DesktopAttrsView {
        DesktopAttrsView {
            kind: opt_view(self.kind),
            hidden: opt_view(self.hidden),
            no_display: opt_view(self.no_display),
            name: opt_view(self.name),
            exec_line: opt_view(self.exec_line),
            try_exec: opt_view(self.try_exec),
            comment: opt_view(self.comment),
            desktop_names: opt_view(self.desktop_names),
            icon: opt_view(self.icon),
        }
    }
}

/// The attributes that the `[Desktop Entry]` section of `contents` gives.
pub open spec fn section_attrs(contents: Seq<u8>) -> DesktopAttrsView {
    let sec = "Desktop Entry"@;
    DesktopAttrsView {
        kind: desktop_entry_value(contents, sec, "Type"@),
        hidden: desktop_entry_value(contents, sec, "Hidden"@),
        no_display: desktop_entry_value(contents, sec, "NoDisplay"@),
        name: desktop_entry_value(contents, sec, "Name"@),
        exec_line: desktop_entry_value(contents, sec, "Exec"@),
        try_exec: desktop_entry_value(contents, sec, "TryExec"@),
        comment: desktop_entry_value(contents, sec, "Comment"@),
        desktop_names: desktop_entry_value(contents, sec, "DesktopNames"@),
        icon: desktop_entry_value(contents, sec, "Icon"@),
    }
}

/// Whether an optional attribute is present and equal to `v`.
pub open spec fn attr_is(a: Option<Seq<char>>, v: Seq<char>) -> bool {
    a == Some(v)
}

/// The session that a desktop entry with these attributes describes, if it describes one:
/// it must have a `Type` of `Application` or `XSession`, must not be `Hidden` or
/// `NoDisplay`, and must have a `Name` and an `Exec` (or, failing that, a `TryExec`).
pub open spec fn session_from_fields(a: DesktopAttrsView, path: Seq<char>, t: SessionType) -> Option<SessionView> {
    if a.kind is None {
        None
    } else if !attr_is(a.kind, "Application"@) && !attr_is(a.kind, "XSession"@) {
        None
    } else if attr_is(a.hidden, "true"@) || attr_is(a.no_display, "true"@) {
        None
    } else if a.name is None {
        None
    } else if a.exec_line is None && a.try_exec is None {
        None
    } else {
        let line = if a.exec_line is Some { a.exec_line->0 } else { a.try_exec->0 };
        Some(SessionView {
            name: a.name->0,
            exec_args: exec_words(line),
            session_type: t,
            comment: a.comment,
            desktop_names: a.desktop_names,
            icon: a.icon,
            file_path: path,
        })
    }
}

/// A session's command is its `Exec` value split into words whenever the entry has an
/// `Exec`; `TryExec` is used only when `Exec` is missing. An entry of type `Application` or
/// `XSession` that is neither hidden nor `NoDisplay` and has a `Name` and an `Exec` always
/// gives a session, with that name, the given type and the given path.
pub proof fn lemma_session_command_from_exec(a: DesktopAttrsView, path: Seq<char>, t: SessionType)
    ensures
        ({
            let r = session_from_fields(a, path, t);
            &&& (r is Some && a.exec_line is Some) ==> r->0.exec_args == exec_words(a.exec_line->0)
            &&& (r is Some && a.exec_line is None && a.try_exec is Some)
                ==> r->0.exec_args == exec_words(a.try_exec->0)
            &&& ((attr_is(a.kind, "Application"@) || attr_is(a.kind, "XSession"@))
                && !attr_is(a.hidden, "true"@) && !attr_is(a.no_display, "true"@)
                && a.name is Some && a.exec_line is Some) ==> {
                &&& r is Some
                &&& r->0.name == a.name->0
                &&& r->0.session_type == t
                &&& r->0.file_path == path
                &&& r->0.exec_args == exec_words(a.exec_line->0)
            }
        }),
{
}

/// What holds of the session read out of a desktop entry file: when the file parses and
/// its `[Desktop Entry]` section has an `Exec` value, a session read from it runs that value
/// split into words.
pub proof fn lemma_desktop_file_uses_exec(path: Seq<char>, contents: Seq<u8>, t: SessionType)
    ensures
        ({
            let r = desktop_file_session(path, contents, t);
            let e = section_attrs(contents).exec_line;
            (r is Ok && r->Ok_0 is Some && e is Some) ==> r->Ok_0->0.exec_args == exec_words(e->0)
        }),
{
    lemma_session_command_from_exec(section_attrs(contents), path, t);
}

fn opt_is(a: &Option<String>, v: &str) -> (res: bool)
    ensures
        res == attr_is(opt_view(*a), v@),
{
    match a {
        Some(s) => {
            let w = String::from_str(v);
            *s == w
        },
        None => false,
    }
}

fn take_opt(a: &Option<String>) -> (res: Option<String>)
    ensures
        opt_view(res) == opt_view(*a),
{
    match a {
        Some(s) => Some(s.clone()),
        None => None,
    }
}

/// Builds the session that a desktop entry with these attributes describes.
pub fn session_from_attrs(attrs: &DesktopAttrs, path: String, session_type: SessionType) -> (res: Option<Session>)
    ensures
        match session_from_fields(attrs@, path@, session_type) {
            Some(v) => res matches Some(s) && s@ == v,
            None => res is None,
        },
{
    if attrs.kind.is_none() {
        return None;
    }
    if !opt_is(&attrs.kind, "Application") && !opt_is(&attrs.kind, "XSession") {
        return None;
    }
    if opt_is(&attrs.hidden, "true") || opt_is(&attrs.no_display, "true") {
        return None;
    }
    let name = match &attrs.name {
        Some(n) => n.clone(),
        None => return None,
    };
    let line = match &attrs.exec_line {
        Some(e) => e,
        None => match &attrs.try_exec {
            Some(e) => e,
            None => return None,
        },
    };
    let exec_args = parse_exec(line.as_str());
    Some(Session {
        name,
        exec_args,
        session_type,
        comment: take_opt(&attrs.comment),
        desktop_names: take_opt(&attrs.desktop_names),
        icon: take_opt(&attrs.icon),
        file_path: path,
    })
}

/// Reads the session attributes out of the `[Desktop Entry]` section of a parsed entry.
pub fn desktop_attrs(entry: &DesktopEntry) -> (res: DesktopAttrs)
    ensures
        res@ == section_attrs(entry@),
{
    let sec = "Desktop Entry";
    DesktopAttrs {
        kind: entry_value(entry, sec, "Type"),
        hidden: entry_value(entry, sec, "Hidden"),
        no_display: entry_value(entry, sec, "NoDisplay"),
        name: entry_value(entry, sec, "Name"),
        exec_line: entry_value(entry, sec, "Exec"),
        try_exec: entry_value(entry, sec, "TryExec"),
        comment: entry_value(entry, sec, "Comment"),
        desktop_names: entry_value(entry, sec, "DesktopNames"),
        icon: entry_value(entry, sec, "Icon"),
    }
}

/// A desktop entry file that `freedesktop_entry_parser` does not accept.
#[derive(Debug, Clone, Copy, PartialEq, Eq, Structural)]
pub enum DesktopEntryError {
    Unparsable,
}

/// The outcome of reading a session out of the bytes of a desktop entry file: an error when
/// the file does not parse, else the session it describes, if any.
pub open spec fn desktop_file_session(path: Seq<char>, contents: Seq<u8>, t: SessionType) -> Result<Option<SessionView>, DesktopEntryError> {
    if !desktop_entry_parses(contents) {
        Err(DesktopEntryError::Unparsable)
    } else {
        Ok(session_from_fields(section_attrs(contents), path, t))
    }
}

/// Parse the bytes of a desktop entry file into a session.
pub fn parse_desktop_entry(path: String, contents: &[u8], session_type: SessionType) -> (res: Result<Option<Session>, DesktopEntryError>)
    ensures
        match desktop_file_session(path@, contents@, session_type) {
            Err(e) => res == Err::<Option<Session>, DesktopEntryError>(e),
            Ok(None) => res matches Ok(None),
            Ok(Some(v)) => res matches Ok(Some(s)) && s@ == v,
        },
{
    match parse_entry_bytes(contents) {
        None => Err(DesktopEntryError::Unparsable),
        Some(entry) => {
            let attrs = desktop_attrs(&entry);
            Ok(session_from_attrs(&attrs, path, session_type))
        },
    }
}

} // verus!
