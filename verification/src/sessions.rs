//! Login sessions: what a session is and how its command line is built.

use vstd::prelude::*;

use crate::config::SessionsConfig;
use crate::text::{chars_of, clone_strings, string_from_chars, utf8_len};

verus! {

/// Session type (Wayland or X11).
#[derive(Debug, Clone, Copy, PartialEq, Eq, Structural)]
pub enum SessionType {
    Wayland,
    X11,
}

/// The name under which a session type is shown.
pub open spec fn session_type_label(t: SessionType) -> Seq<char> {
    match t {
        SessionType::Wayland => "Wayland"@,
        SessionType::X11 => "X11"@,
    }
}

impl SessionType {
    /// The name under which this session type is shown ("Wayland" or "X11").
    pub fn label(&self) -> (res: String)
        ensures
            res@ == session_type_label(*self),
    {
        match self {
            SessionType::Wayland => String::from_str("Wayland"),
            SessionType::X11 => String::from_str("X11"),
        }
    }
}

/// A login session.
#[derive(Debug)]
pub struct Session {
    /// Display name.
    pub name: String,
    /// Executable command.
    pub exec_args: Vec<String>,
    /// Session type.
    pub session_type: SessionType,
    /// Description/comment.
    pub comment: Option<String>,
    /// Desktop names (XDG_CURRENT_DESKTOP value).
    pub desktop_names: Option<String>,
    /// Icon name.
    pub icon: Option<String>,
    /// Source file path.
    pub file_path: String,
}

/// What a session is, as plain values.
pub struct SessionView {
    pub name: Seq<char>,
    pub exec_args: Seq<Seq<char>>,
    pub session_type: SessionType,
    pub comment: Option<Seq<char>>,
    pub desktop_names: Option<Seq<char>>,
    pub icon: Option<Seq<char>>,
    pub file_path: Seq<char>,
}

/// The view of an optional string.
pub open spec fn opt_view(s: Option<String>) -> Option<Seq<char>> {
    match s {
        Some(v) => Some(v@),
        None => None,
    }
}

impl View for Session {
    type V = SessionView;

    open spec fn view(&self) -> SessionView {
        SessionView {
            name: self.name@,
            exec_args: self.exec_args.deep_view(),
            session_type: self.session_type,
            comment: opt_view(self.comment),
            desktop_names: opt_view(self.desktop_names),
            icon: opt_view(self.icon),
            file_path: self.file_path@,
        }
    }
}

fn clone_opt_string(s: &Option<String>) -> (res: Option<String>)
    ensures
        res == *s,
{
    match s {
        Some(v) => Some(v.clone()),
        None => None,
    }
}

impl Clone for Session {
    fn clone(&self) -> (res: Self)
        ensures
            res@ == self@,
    {
        let exec_args = clone_strings(&self.exec_args);
        Session {
            name: self.name.clone(),
            exec_args,
            session_type: self.session_type,
            comment: clone_opt_string(&self.comment),
            desktop_names: clone_opt_string(&self.desktop_names),
            icon: clone_opt_string(&self.icon),
            file_path: self.file_path.clone(),
        }
    }
}

/// The command that starts a session: Wayland sessions run their `Exec` as it is,
/// X11 sessions run it behind the configured wrapper.
pub open spec fn session_command(s: SessionView, x11_wrapper: Seq<Seq<char>>) -> Seq<Seq<char>> {
    match s.session_type {
        SessionType::Wayland => s.exec_args,
        SessionType::X11 => x11_wrapper + s.exec_args,
    }
}

/// The environment entries that a session is started with.
pub open spec fn session_env(s: SessionView) -> Seq<Seq<char>> {
    let kind = match s.session_type {
        SessionType::Wayland => "XDG_SESSION_TYPE=wayland"@,
        SessionType::X11 => "XDG_SESSION_TYPE=x11"@,
    };
    match s.desktop_names {
        Some(d) => seq![kind, "XDG_CURRENT_DESKTOP="@ + d],
        None => seq![kind],
    }
}

/// A session that names its desktops is started with `XDG_CURRENT_DESKTOP` set to them,
/// whatever its type; every session is started with `XDG_SESSION_TYPE` set to its type,
/// and with nothing more when it names no desktops.
pub proof fn lemma_session_env_entries(s: SessionView)
    ensures
        s.desktop_names matches Some(d) ==> session_env(s).contains("XDG_CURRENT_DESKTOP="@ + d),
        session_env(s).len() >= 1,
        s.session_type == SessionType::Wayland ==> session_env(s)[0] == "XDG_SESSION_TYPE=wayland"@,
        s.session_type == SessionType::X11 ==> session_env(s)[0] == "XDG_SESSION_TYPE=x11"@,
        s.desktop_names is None ==> session_env(s).len() == 1,
{
    if let Some(d) = s.desktop_names {
        assert(session_env(s)[1] == "XDG_CURRENT_DESKTOP="@ + d);
    }
}

impl Session {
    /// Get the command to execute for this session.
    pub fn get_command(&self, config: &SessionsConfig) -> (cmd: Vec<String>)
        ensures
            cmd.deep_view() == session_command(self@, config.x11_wrapper.deep_view()),
    {
        match self.session_type {
            SessionType::Wayland => clone_strings(&self.exec_args),
            SessionType::X11 => {
                let mut cmd = clone_strings(&config.x11_wrapper);
                let mut tail = clone_strings(&self.exec_args);
                let ghost a = cmd.deep_view();
                let ghost b = tail.deep_view();
                cmd.append(&mut tail);
                assert(cmd.deep_view() =~= a + b);
                cmd
            }
        }
    }

    /// Get environment variables for this session.
    pub fn get_env(&self) -> (env: Vec<String>)
        ensures
            env.deep_view() == session_env(self@),
    {
        let mut env: Vec<String> = Vec::new();
        match self.session_type {
            SessionType::Wayland => env.push(String::from_str("XDG_SESSION_TYPE=wayland")),
            SessionType::X11 => env.push(String::from_str("XDG_SESSION_TYPE=x11")),
        }
        if let Some(desktop) = &self.desktop_names {
            let entry = String::from_str("XDG_CURRENT_DESKTOP=").concat(desktop.as_str());
            env.push(entry);
        }
        assert(env.deep_view() =~= session_env(self@));
        env
    }
}

/// Whether `s` is the first session in `sessions` named `name`.
pub open spec fn is_first_named(sessions: Seq<Session>, i: int, name: Seq<char>) -> bool {
    &&& 0 <= i < sessions.len()
    &&& sessions[i].name@ == name
    &&& forall|j: int| 0 <= j < i ==> sessions[j].name@ != name
}

/// Whether no session in `sessions` is named `name`.
pub open spec fn none_named(sessions: Seq<Session>, name: Seq<char>) -> bool {
    forall|j: int| 0 <= j < sessions.len() ==> sessions[j].name@ != name
}

/// Index of the first session named `name`, if any.
pub fn position_by_name(sessions: &[Session], name: &str) -> (res: Option<usize>)
    ensures
        match res {
            Some(i) => is_first_named(sessions@, i as int, name@),
            None => none_named(sessions@, name@),
        },
{
    let target = String::from_str(name);
    let mut i: usize = 0;
    while i < sessions.len()
        invariant
            i <= sessions@.len(),
            target@ == name@,
            forall|j: int| 0 <= j < i ==> sessions@[j].name@ != name@,
        decreases sessions@.len() - i,
    {
        if sessions[i].name == target {
            return Some(i);
        }
        i = i + 1;
    }
    None
}

/// Find a session by name.
pub fn find_session_by_name<'a>(sessions: &'a [Session], name: &str) -> (res: Option<&'a Session>)
    ensures
        match res {
            Some(s) => exists|i: int| is_first_named(sessions@, i, name@) && sessions@[i] == *s,
            None => none_named(sessions@, name@),
        },
{
    match position_by_name(sessions, name) {
        Some(i) => Some(&sessions[i]),
        None => None,
    }
}


/// Index of the first Wayland session, if any.
pub open spec fn is_first_wayland(sessions: Seq<Session>, i: int) -> bool {
    &&& 0 <= i < sessions.len()
    &&& sessions[i].session_type == SessionType::Wayland
    &&& forall|j: int| 0 <= j < i ==> sessions[j].session_type != SessionType::Wayland
}

/// The index of the session that is preselected: the configured default session when it
/// exists, else the first Wayland session, else the first session.
pub open spec fn default_session_index(sessions: Seq<Session>, default_name: Seq<char>) -> Option<int> {
    if default_name.len() > 0 && !none_named(sessions, default_name) {
        Some(choose|i: int| is_first_named(sessions, i, default_name))
    } else if exists|i: int| is_first_wayland(sessions, i) {
        Some(choose|i: int| is_first_wayland(sessions, i))
    } else if sessions.len() > 0 {
        Some(0)
    } else {
        None
    }
}

/// Get the default session (the configured one, else the first Wayland session, else the
/// first session).
pub fn get_default_session<'a>(sessions: &'a [Session], config: &SessionsConfig) -> (res: Option<&'a Session>)
    ensures
        match default_session_index(sessions@, config.default_session@) {
            Some(i) => res == Some(&sessions@[i]),
            None => res is None,
        },
{
    let default_name = config.default_session.as_str();
    if !default_name.is_empty() {
        if let Some(i) = position_by_name(sessions, default_name) {
            proof {
                lemma_first_named_unique(sessions@, i as int, config.default_session@);
            }
            return Some(&sessions[i]);
        }
    }
    let mut i: usize = 0;
    while i < sessions.len()
        invariant
            i <= sessions@.len(),
            forall|j: int| 0 <= j < i ==> sessions@[j].session_type != SessionType::Wayland,
            !(config.default_session@.len() > 0 && !none_named(sessions@, config.default_session@)),
        decreases sessions@.len() - i,
    {
        if sessions[i].session_type == SessionType::Wayland {
            proof {
                assert(is_first_wayland(sessions@, i as int));
                lemma_first_wayland_unique(sessions@, i as int);
            }
            return Some(&sessions[i]);
        }
        i = i + 1;
    }
    if sessions.len() > 0 {
        Some(&sessions[0])
    } else {
        None
    }
}

proof fn lemma_first_named_unique(sessions: Seq<Session>, i: int, name: Seq<char>)
    requires
        is_first_named(sessions, i, name),
    ensures
        (choose|k: int| is_first_named(sessions, k, name)) == i,
{
    let k = choose|k: int| is_first_named(sessions, k, name);
    assert(is_first_named(sessions, k, name));
}

proof fn lemma_first_wayland_unique(sessions: Seq<Session>, i: int)
    requires
        is_first_wayland(sessions, i),
    ensures
        (choose|k: int| is_first_wayland(sessions, k)) == i,
{
    let k = choose|k: int| is_first_wayland(sessions, k);
    assert(is_first_wayland(sessions, k));
}

/// State of the `Exec` splitter after a prefix of the input.
pub struct ExecSplit {
    pub args: Seq<Seq<char>>,
    pub current: Seq<char>,
    pub in_quote: bool,
    pub quote_char: char,
}

/// Whether an argument is a desktop-entry field code (`%` and one more byte).
pub open spec fn is_field_code(arg: Seq<char>) -> bool {
    arg.len() > 0 && arg[0] == '%' && utf8_len(arg) == 2
}

/// One step of the splitter on character `c`.
pub open spec fn exec_split_step(st: ExecSplit, c: char) -> ExecSplit {
    if (c == '"' || c == '\'') && !st.in_quote {
        ExecSplit { in_quote: true, quote_char: c, ..st }
    } else if c == st.quote_char && st.in_quote {
        ExecSplit { in_quote: false, ..st }
    } else if (c == ' ' || c == '\t') && !st.in_quote {
        if st.current.len() > 0 {
            ExecSplit {
                args: if !is_field_code(st.current) { st.args.push(st.current) } else { st.args },
                current: Seq::empty(),
                ..st
            }
        } else {
            st
        }
    } else {
        ExecSplit { current: st.current.push(c), ..st }
    }
}

/// The splitter's state after reading all of `s`.
pub open spec fn exec_split_state(s: Seq<char>) -> ExecSplit
    decreases s.len(),
{
    if s.len() == 0 {
        ExecSplit { args: Seq::empty(), current: Seq::empty(), in_quote: false, quote_char: ' ' }
    } else {
        exec_split_step(exec_split_state(s.drop_last()), s.last())
    }
}

/// The arguments of an `Exec` value: words split at unquoted blanks, quotes removed,
/// field codes such as `%u` dropped.
pub open spec fn exec_words(s: Seq<char>) -> Seq<Seq<char>> {
    let st = exec_split_state(s);
    if st.current.len() > 0 && !is_field_code(st.current) {
        st.args.push(st.current)
    } else {
        st.args
    }
}

proof fn lemma_split_args_clean(s: Seq<char>)
    ensures
        forall|i: int| 0 <= i < exec_split_state(s).args.len() ==> {
            &&& (#[trigger] exec_split_state(s).args[i]).len() > 0
            &&& !is_field_code(exec_split_state(s).args[i])
        },
    decreases s.len(),
{
    if s.len() > 0 {
        let p = s.drop_last();
        lemma_split_args_clean(p);
        let st = exec_split_state(p);
        assert(exec_split_state(s) == exec_split_step(st, s.last()));
        assert forall|i: int| 0 <= i < exec_split_state(s).args.len() implies {
            &&& (#[trigger] exec_split_state(s).args[i]).len() > 0
            &&& !is_field_code(exec_split_state(s).args[i])
        } by {
            if i < st.args.len() {
                assert(exec_split_state(s).args[i] == st.args[i]);
            }
        }
    }
}

/// What `Exec` splitting yields never holds an empty argument or a field code.
pub proof fn lemma_exec_words_clean(s: Seq<char>)
    ensures
        forall|i: int| 0 <= i < exec_words(s).len() ==> {
            &&& (#[trigger] exec_words(s)[i]).len() > 0
            &&& !is_field_code(exec_words(s)[i])
        },
{
    lemma_split_args_clean(s);
}

/// Whether a character splits or quotes in an `Exec` value.
pub open spec fn is_exec_special(c: char) -> bool {
    c == ' ' || c == '\t' || c == '"' || c == '\''
}

proof fn lemma_split_plain(s: Seq<char>)
    requires
        forall|i: int| 0 <= i < s.len() ==> !is_exec_special(#[trigger] s[i]),
    ensures
        exec_split_state(s) == (ExecSplit { args: Seq::empty(), current: s, in_quote: false, quote_char: ' ' }),
    decreases s.len(),
{
    if s.len() > 0 {
        let p = s.drop_last();
        assert forall|i: int| 0 <= i < p.len() implies !is_exec_special(#[trigger] p[i]) by {
            assert(p[i] == s[i]);
        }
        lemma_split_plain(p);
        assert(!is_exec_special(s[s.len() - 1]));
        assert(p.push(s.last()) =~= s);
    } else {
        assert(s =~= Seq::<char>::empty());
    }
}

/// An `Exec` value without blanks or quotes is one argument, the value itself, unless it
/// is empty or a field code.
pub proof fn lemma_exec_single_word(s: Seq<char>)
    requires
        forall|i: int| 0 <= i < s.len() ==> !is_exec_special(#[trigger] s[i]),
    ensures
        exec_words(s) == (if s.len() > 0 && !is_field_code(s) { seq![s] } else { Seq::<Seq<char>>::empty() }),
{
    lemma_split_plain(s);
    assert(Seq::<Seq<char>>::empty().push(s) =~= seq![s]);
}

fn is_field_code_exec(arg: &Vec<char>) -> (res: bool)
    ensures
        res == is_field_code(arg@),
{
    proof {
        if arg@.len() >= 1 && arg@[0] == '%' {
            lemma_utf8_len_first_two(arg@);
        }
    }
    arg.len() == 2 && arg[0] == '%' && (arg[1] as u32) < 0x80
}

proof fn lemma_utf8_len_first_two(s: Seq<char>)
    requires
        s.len() >= 1,
        s[0] == '%',
    ensures
        (utf8_len(s) == 2) <==> (s.len() == 2 && (s[1] as u32) < 0x80),
    decreases s.len(),
{
    reveal_with_fuel(utf8_len, 3);
    if s.len() > 2 {
        lemma_utf8_len_ge(s.drop_last(), 2);
    }
}

proof fn lemma_utf8_len_ge(s: Seq<char>, n: nat)
    requires
        s.len() >= n,
    ensures
        utf8_len(s) >= n,
    decreases s.len(),
{
    if s.len() > 0 && n > 0 {
        lemma_utf8_len_ge(s.drop_last(), (n - 1) as nat);
    } else if s.len() > 0 {
        lemma_utf8_len_ge(s.drop_last(), 0);
    }
}

/// Splits an `Exec` string into command arguments.
pub fn parse_exec(exec: &str) -> (args: Vec<String>)
    ensures
        args.deep_view() == exec_words(exec@),
{
    let chars = chars_of(exec);
    let mut args: Vec<String> = Vec::new();
    let mut current: Vec<char> = Vec::new();
    let mut in_quote = false;
    let mut quote_char = ' ';
    let mut i: usize = 0;
    while i < chars.len()
        invariant
            i <= chars@.len(),
            chars@ == exec@,
            ({
                let st = exec_split_state(chars@.take(i as int));
                &&& args.deep_view() == st.args
                &&& current@ == st.current
                &&& in_quote == st.in_quote
                &&& quote_char == st.quote_char
            }),
        decreases chars@.len() - i,
    {
        let c = chars[i];
        proof {
            assert(chars@.take(i + 1).drop_last() =~= chars@.take(i as int));
        }
        let ghost old_args = args.deep_view();
        if (c == '"' || c == '\'') && !in_quote {
            in_quote = true;
            quote_char = c;
        } else if c == quote_char && in_quote {
            in_quote = false;
        } else if (c == ' ' || c == '\t') && !in_quote {
            if current.len() > 0 {
                if !is_field_code_exec(&current) {
                    args.push(string_from_chars(&current));
                    assert(args.deep_view() =~= old_args.push(current@));
                }
                current = Vec::new();
            }
        } else {
            current.push(c);
        }
        i = i + 1;
    }
    proof {
        assert(chars@.take(i as int) =~= exec@);
    }
    if current.len() > 0 && !is_field_code_exec(&current) {
        let ghost old_args = args.deep_view();
        args.push(string_from_chars(&current));
        assert(args.deep_view() =~= old_args.push(current@));
    }
    args
}

} // verus!
