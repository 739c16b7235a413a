//! The dashboard launcher: quoting a command for a shell or an AppleScript
//! string, the terminals each platform supports, and how a dashboard is
//! opened in the one chosen.
use vstd::prelude::*;

use crate::profile::Platform;
use crate::text::{chars_of, push_char, same_text, text, views};

verus! {

pub open spec fn sh_piece(c: char) -> Seq<char> {
    if c == '\'' {
        seq!['\'', '\\', '\'', '\'']
    } else {
        seq![c]
    }
}

/// Each `'` of `s` written as `'\''`, everything else as it is.
pub open spec fn sh_escape(s: Seq<char>) -> Seq<char>
    decreases s.len(),
{
    if s.len() == 0 {
        Seq::empty()
    } else {
        sh_piece(s[0]) + sh_escape(s.drop_first())
    }
}

/// `s` as one POSIX single-quoted shell word.
pub open spec fn sh_quoted(s: Seq<char>) -> Seq<char> {
    seq!['\''] + sh_escape(s) + seq!['\'']
}

proof fn lemma_sh_escape_push(s: Seq<char>, c: char)
    ensures
        sh_escape(s.push(c)) == sh_escape(s) + sh_piece(c),
    decreases s.len(),
{
    if s.len() == 0 {
        let t = s.push(c);
        assert(t.len() == 1 && t[0] == c);
        assert(t.drop_first() =~= Seq::<char>::empty());
        assert(sh_escape(t.drop_first()) == Seq::<char>::empty());
        assert(sh_escape(s) == Seq::<char>::empty());
        assert(sh_escape(t) == sh_piece(c) + Seq::<char>::empty());
        assert(sh_piece(c) + Seq::<char>::empty() =~= sh_piece(c));
        assert(sh_escape(s) + sh_piece(c) =~= sh_piece(c));
    } else {
        assert(s.push(c).drop_first() =~= s.drop_first().push(c));
        lemma_sh_escape_push(s.drop_first(), c);
        assert(sh_escape(s.push(c)) =~= sh_piece(s[0]) + (sh_escape(s.drop_first()) + sh_piece(c)));
    }
}

/// POSIX single-quote wrapping: safe for any text, quotes included.
pub fn shell_quote(s: &str) -> (r: String)
    ensures
        r@ == sh_quoted(s@),
{
    let v = chars_of(s);
    let mut r = String::new();
    push_char(&mut r, '\'');
    let mut i: usize = 0;
    while i < v.len()
        invariant
            v@ == s@,
            i <= v@.len(),
            r@ == seq!['\''] + sh_escape(s@.take(i as int)),
        decreases v@.len() - i,
    {
        let c = v[i];
        if c == '\'' {
            push_char(&mut r, '\'');
            push_char(&mut r, '\\');
            push_char(&mut r, '\'');
            push_char(&mut r, '\'');
        } else {
            push_char(&mut r, c);
        }
        proof {
            assert(s@.take(i + 1) =~= s@.take(i as int).push(c));
            lemma_sh_escape_push(s@.take(i as int), c);
        }
        i += 1;
        assert(r@ =~= seq!['\''] + sh_escape(s@.take(i as int)));
    }
    assert(s@.take(v@.len() as int) =~= s@);
    push_char(&mut r, '\'');
    r
}

/// How a POSIX shell reads a word outside quotes: `'` opens a quote, `\`
/// takes the next character literally.
pub open spec fn sh_read_out(t: Seq<char>) -> Seq<char>
    decreases t.len(), 1int,
{
    if t.len() == 0 {
        Seq::empty()
    } else if t[0] == '\'' {
        sh_read_in(t.drop_first())
    } else if t[0] == '\\' && t.len() >= 2 {
        seq![t[1]] + sh_read_out(t.subrange(2, t.len() as int))
    } else {
        seq![t[0]] + sh_read_out(t.drop_first())
    }
}

/// How a POSIX shell reads inside single quotes: everything up to the
/// next `'` is literal.
pub open spec fn sh_read_in(t: Seq<char>) -> Seq<char>
    decreases t.len(), 0int,
{
    if t.len() == 0 {
        Seq::empty()
    } else if t[0] == '\'' {
        sh_read_out(t.drop_first())
    } else {
        seq![t[0]] + sh_read_in(t.drop_first())
    }
}

proof fn lemma_read_quoted(s: Seq<char>, rest: Seq<char>)
    ensures
        sh_read_in(sh_escape(s) + seq!['\''] + rest) == s + sh_read_out(rest),
    decreases s.len(),
{
    if s.len() == 0 {
        assert(sh_escape(s) + seq!['\''] + rest =~= seq!['\''] + rest);
        assert((seq!['\''] + rest).drop_first() =~= rest);
        assert(s + sh_read_out(rest) =~= sh_read_out(rest));
    } else {
        let c = s[0];
        let x = sh_escape(s.drop_first()) + seq!['\''] + rest;
        lemma_read_quoted(s.drop_first(), rest);
        assert(sh_escape(s) + seq!['\''] + rest =~= sh_piece(c) + x);
        if c == '\'' {
            let t = sh_piece(c) + x;
            assert(t.drop_first() =~= seq!['\\', '\'', '\''] + x);
            let u = seq!['\\', '\'', '\''] + x;
            assert(u.subrange(2, u.len() as int) =~= seq!['\''] + x);
            assert((seq!['\''] + x).drop_first() =~= x);
            assert(sh_read_in(t) == sh_read_out(u));
            assert(sh_read_out(u) == seq!['\''] + sh_read_out(seq!['\''] + x));
            assert(sh_read_out(seq!['\''] + x) == sh_read_in(x));
            assert(seq![c] + (s.drop_first() + sh_read_out(rest)) =~= s + sh_read_out(rest));
        } else {
            let t = seq![c] + x;
            assert(t.drop_first() =~= x);
            assert(seq![c] + (s.drop_first() + sh_read_out(rest)) =~= s + sh_read_out(rest));
        }
    }
}

/// Whatever the text, a shell that reads the quoted word gets the text back.
pub proof fn shell_quote_round_trips(s: Seq<char>)
    ensures
        sh_read_out(sh_quoted(s)) == s,
{
    let q = sh_quoted(s);
    assert(q.drop_first() =~= sh_escape(s) + seq!['\''] + Seq::<char>::empty());
    lemma_read_quoted(s, Seq::empty());
    assert(s + Seq::<char>::empty() =~= s);
}

pub open spec fn as_piece(c: char) -> Seq<char> {
    if c == '\\' {
        seq!['\\', '\\']
    } else if c == '"' {
        seq!['\\', '"']
    } else {
        seq![c]
    }
}

pub open spec fn as_escape(s: Seq<char>) -> Seq<char>
    decreases s.len(),
{
    if s.len() == 0 {
        Seq::empty()
    } else {
        as_escape(s.drop_last()) + as_piece(s.last())
    }
}

/// `s` as an AppleScript string literal: backslashes and double quotes escaped.
pub open spec fn as_quoted(s: Seq<char>) -> Seq<char> {
    seq!['"'] + as_escape(s) + seq!['"']
}

pub fn applescript_quote(s: &str) -> (r: String)
    ensures
        r@ == as_quoted(s@),
{
    let v = chars_of(s);
    let mut r = String::new();
    push_char(&mut r, '"');
    let mut i: usize = 0;
    while i < v.len()
        invariant
            v@ == s@,
            i <= v@.len(),
            r@ == seq!['"'] + as_escape(s@.take(i as int)),
        decreases v@.len() - i,
    {
        let c = v[i];
        if c == '\\' {
            push_char(&mut r, '\\');
            push_char(&mut r, '\\');
        } else if c == '"' {
            push_char(&mut r, '\\');
            push_char(&mut r, '"');
        } else {
            push_char(&mut r, c);
        }
        assert(s@.take(i + 1).drop_last() =~= s@.take(i as int));
        i += 1;
        assert(r@ =~= seq!['"'] + as_escape(s@.take(i as int)));
    }
    assert(s@.take(v@.len() as int) =~= s@);
    push_char(&mut r, '"');
    r
}

/// The AppleScript that opens a new iTerm2 window sized for the dashboard
/// and types the command into it.
pub open spec fn iterm2_script_text(shell_cmd: Seq<char>) -> Seq<char> {
    "tell application \"iTerm\"\n  activate\n  set newWindow to (create window with default profile)\n  tell current session of newWindow\n    set columns to 140\n    set rows to 42\n    write text "@
        + as_quoted(shell_cmd) + "\n  end tell\nend tell"@
}

pub fn iterm2_script(shell_cmd: &str) -> (r: String)
    ensures
        r@ == iterm2_script_text(shell_cmd@),
{
    let mut r = text(
        "tell application \"iTerm\"\n  activate\n  set newWindow to (create window with default profile)\n  tell current session of newWindow\n    set columns to 140\n    set rows to 42\n    write text ",
    );
    r.append(applescript_quote(shell_cmd).as_str());
    r.append("\n  end tell\nend tell");
    r
}

/// The AppleScript that makes sure Terminal has a window, sizes it for the
/// dashboard, and runs the command in it.
pub open spec fn terminal_script_text(shell_cmd: Seq<char>) -> Seq<char> {
    "tell application \"Terminal\"\n  activate\n  if (count of windows) = 0 then\n    do script \"\"\n  end if\n  set number of columns of front window to 140\n  set number of rows of front window to 42\n  do script "@
        + as_quoted(shell_cmd) + " in front window\nend tell"@
}

pub fn terminal_script(shell_cmd: &str) -> (r: String)
    ensures
        r@ == terminal_script_text(shell_cmd@),
{
    let mut r = text(
        "tell application \"Terminal\"\n  activate\n  if (count of windows) = 0 then\n    do script \"\"\n  end if\n  set number of columns of front window to 140\n  set number of rows of front window to 42\n  do script ",
    );
    r.append(applescript_quote(shell_cmd).as_str());
    r.append(" in front window\nend tell");
    r
}

/// The command the dashboard terminal runs: the CLI's `dashboard` on the
/// target, quoted for the platform's shell; on Linux the shell stays open
/// afterwards.
pub open spec fn dashboard_command_text(p: Platform, mountos: Seq<char>, target: Seq<char>, gui: bool) -> Seq<char> {
    if p == Platform::Windows {
        "mode con: cols=140 lines=42 && \""@ + mountos + "\" dashboard"@ + (if gui {
            " --gui"@
        } else {
            Seq::empty()
        }) + " \""@ + target + "\""@
    } else {
        sh_quoted(mountos) + " dashboard"@ + (if gui {
            " --gui"@
        } else {
            Seq::empty()
        }) + " "@ + sh_quoted(target) + (if p == Platform::Other {
            "; exec \"$SHELL\""@
        } else {
            Seq::empty()
        })
    }
}

pub fn dashboard_shell_command(platform: Platform, mountos: &str, target: &str, gui: bool) -> (r: String)
    ensures
        r@ == dashboard_command_text(platform, mountos@, target@, gui),
{
    if platform == Platform::Windows {
        let mut r = text("mode con: cols=140 lines=42 && \"");
        r.append(mountos);
        r.append("\" dashboard");
        if gui {
            r.append(" --gui");
        }
        r.append(" \"");
        r.append(target);
        r.append("\"");
        r
    } else {
        let mut r = shell_quote(mountos);
        r.append(" dashboard");
        if gui {
            r.append(" --gui");
        }
        r.append(" ");
        r.append(shell_quote(target).as_str());
        if platform == Platform::Other {
            r.append("; exec \"$SHELL\"");
        }
        r
    }
}

/// A terminal the settings picker can offer.
pub struct TerminalOption {
    pub id: String,
    pub label: String,
}

/// The terminals a platform's launcher supports, in fallback order:
/// (id, label, what is probed to find it installed).
pub open spec fn known_terminals(p: Platform) -> Seq<(Seq<char>, Seq<char>, Seq<char>)> {
    match p {
        Platform::MacOs => seq![
            ("terminal"@, "Terminal"@, "Terminal"@),
            ("iterm2"@, "iTerm2"@, "iTerm"@),
            ("ghostty"@, "Ghostty"@, "Ghostty"@),
            ("alacritty"@, "Alacritty"@, "Alacritty"@),
            ("kitty"@, "kitty"@, "kitty"@),
            ("wezterm"@, "WezTerm"@, "WezTerm"@),
        ],
        Platform::Windows => seq![
            ("wt"@, "Windows Terminal"@, "wt"@),
            ("cmd"@, "Command Prompt"@, "cmd"@),
        ],
        Platform::Other => seq![
            ("x-terminal-emulator"@, "System default"@, "x-terminal-emulator"@),
            ("gnome-terminal"@, "GNOME Terminal"@, "gnome-terminal"@),
            ("konsole"@, "Konsole"@, "konsole"@),
            ("xterm"@, "xterm"@, "xterm"@),
        ],
    }
}

fn known_terminal_list(platform: Platform) -> (r: Vec<(&'static str, &'static str, &'static str)>)
    ensures
        r@.len() == known_terminals(platform).len(),
        forall|i: int|
            0 <= i < r@.len() ==> ((#[trigger] r@[i]).0@, r@[i].1@, r@[i].2@) == known_terminals(
                platform,
            )[i],
{
    match platform {
        Platform::MacOs => vec![
            ("terminal", "Terminal", "Terminal"),
            ("iterm2", "iTerm2", "iTerm"),
            ("ghostty", "Ghostty", "Ghostty"),
            ("alacritty", "Alacritty", "Alacritty"),
            ("kitty", "kitty", "kitty"),
            ("wezterm", "WezTerm", "WezTerm"),
        ],
        Platform::Windows => vec![("wt", "Windows Terminal", "wt"), ("cmd", "Command Prompt", "cmd")],
        Platform::Other => vec![
            ("x-terminal-emulator", "System default", "x-terminal-emulator"),
            ("gnome-terminal", "GNOME Terminal", "gnome-terminal"),
            ("konsole", "Konsole", "konsole"),
            ("xterm", "xterm", "xterm"),
        ],
    }
}

pub fn strings_contain(list: &[String], s: &str) -> (r: bool)
    ensures
        r == views(list@).contains(s@),
{
    let mut i: usize = 0;
    while i < list.len()
        invariant
            i <= list@.len(),
            forall|k: int| 0 <= k < i ==> list@[k]@ != s@,
        decreases list@.len() - i,
    {
        if same_text(list[i].as_str(), s) {
            assert(views(list@)[i as int] == s@);
            return true;
        }
        i += 1;
    }
    assert forall|k: int| 0 <= k < views(list@).len() implies views(list@)[k] != s@ by {
        assert(views(list@)[k] == list@[k]@);
    }
    false
}

pub open spec fn terminal_offered(p: Platform, t: (Seq<char>, Seq<char>, Seq<char>), installed: Seq<Seq<char>>) -> bool {
    (p == Platform::Windows && t.0 == "cmd"@) || installed.contains(t.2)
}

/// The (id, label) of the known terminals among the first `n` that are offered.
pub open spec fn offered_upto(p: Platform, installed: Seq<Seq<char>>, n: int) -> Seq<(Seq<char>, Seq<char>)>
    decreases n,
{
    if n <= 0 {
        Seq::empty()
    } else {
        offered_upto(p, installed, n - 1) + if terminal_offered(p, known_terminals(p)[n - 1], installed) {
            seq![(known_terminals(p)[n - 1].0, known_terminals(p)[n - 1].1)]
        } else {
            Seq::empty()
        }
    }
}

pub open spec fn option_views(v: Seq<TerminalOption>) -> Seq<(Seq<char>, Seq<char>)> {
    v.map_values(|o: TerminalOption| (o.id@, o.label@))
}

/// The terminals installed here, in preference order. `installed` names
/// the probes found (application bundles on macOS, programs on PATH
/// elsewhere); the Windows command prompt is always present.
pub fn available_terminals(platform: Platform, installed: &[String]) -> (r: Vec<TerminalOption>)
    ensures
        option_views(r@) == offered_upto(
            platform,
            views(installed@),
            known_terminals(platform).len() as int,
        ),
{
    let known = known_terminal_list(platform);
    let mut out: Vec<TerminalOption> = Vec::new();
    let mut i: usize = 0;
    while i < known.len()
        invariant
            known@.len() == known_terminals(platform).len(),
            forall|k: int|
                0 <= k < known@.len() ==> ((#[trigger] known@[k]).0@, known@[k].1@, known@[k].2@)
                    == known_terminals(platform)[k],
            i <= known@.len(),
            option_views(out@) == offered_upto(platform, views(installed@), i as int),
        decreases known@.len() - i,
    {
        let (id, label, probe) = known[i];
        assert((id@, label@, probe@) == known_terminals(platform)[i as int]);
        if (platform == Platform::Windows && same_text(id, "cmd")) || strings_contain(installed, probe) {
            let o = TerminalOption { id: text(id), label: text(label) };
            let ghost before = option_views(out@);
            out.push(o);
            assert(option_views(out@) =~= before.push((id@, label@)));
        }
        i += 1;
        assert(option_views(out@) =~= offered_upto(platform, views(installed@), i as int));
    }
    out
}

/// How the dashboard is opened.
pub enum DashboardLaunch {
    /// Run the script with `osascript -e`; `app` names the terminal it drives.
    AppleScript { script: String, app: String },
    /// `open -na <bundle> --args <args>`.
    OpenApp { bundle: String, args: Vec<String> },
    /// The `wezterm` binary inside WezTerm.app, with these arguments.
    WezTerm { args: Vec<String> },
    /// A program found on PATH, with these arguments.
    Spawn { program: String, args: Vec<String> },
    /// No supported terminal is installed.
    NoTerminal,
}

pub enum LaunchView {
    AppleScript(Seq<char>, Seq<char>),
    OpenApp(Seq<char>, Seq<Seq<char>>),
    WezTerm(Seq<Seq<char>>),
    Spawn(Seq<char>, Seq<Seq<char>>),
    NoTerminal,
}

impl View for DashboardLaunch {
    type V = LaunchView;

    open spec fn view(&self) -> LaunchView {
        match self {
            DashboardLaunch::AppleScript { script, app } => LaunchView::AppleScript(script@, app@),
            DashboardLaunch::OpenApp { bundle, args } => LaunchView::OpenApp(bundle@, views(args@)),
            DashboardLaunch::WezTerm { args } => LaunchView::WezTerm(views(args@)),
            DashboardLaunch::Spawn { program, args } => LaunchView::Spawn(program@, views(args@)),
            DashboardLaunch::NoTerminal => LaunchView::NoTerminal,
        }
    }
}

pub open spec fn pick(preferred: Option<Seq<char>>, available: Seq<Seq<char>>, fallback: Seq<char>) -> Seq<char> {
    match preferred {
        Some(p) => if available.contains(p) {
            p
        } else {
            fallback
        },
        None => fallback,
    }
}

/// The macOS launch for the chosen terminal; a preference that is not
/// installed falls back to Terminal.
pub open spec fn macos_launch(shell: Seq<char>, preferred: Option<Seq<char>>, available: Seq<Seq<char>>) -> LaunchView {
    let chosen = pick(preferred, available, "terminal"@);
    if chosen == "iterm2"@ {
        LaunchView::AppleScript(iterm2_script_text(shell), "iTerm"@)
    } else if chosen == "ghostty"@ {
        LaunchView::OpenApp(
            "Ghostty"@,
            seq!["--window-width=140"@, "--window-height=42"@, "-e"@, "/bin/sh"@, "-c"@, shell],
        )
    } else if chosen == "alacritty"@ {
        LaunchView::OpenApp(
            "Alacritty"@,
            seq![
                "-o"@,
                "window.dimensions.columns=140"@,
                "-o"@,
                "window.dimensions.lines=42"@,
                "-e"@,
                "/bin/sh"@,
                "-c"@,
                shell,
            ],
        )
    } else if chosen == "kitty"@ {
        LaunchView::OpenApp(
            "kitty"@,
            seq![
                "-o"@,
                "initial_window_width=140c"@,
                "-o"@,
                "initial_window_height=42c"@,
                "/bin/sh"@,
                "-c"@,
                shell,
            ],
        )
    } else if chosen == "wezterm"@ {
        LaunchView::WezTerm(
            seq![
                "--config"@,
                "initial_cols=140"@,
                "--config"@,
                "initial_rows=42"@,
                "start"@,
                "--"@,
                "/bin/sh"@,
                "-c"@,
                shell,
            ],
        )
    } else {
        LaunchView::AppleScript(terminal_script_text(shell), "Terminal"@)
    }
}

fn strs(v: Vec<&str>) -> (r: Vec<String>)
    ensures
        views(r@) == v@.map_values(|s: &str| s@),
{
    let mut out: Vec<String> = Vec::new();
    let mut i: usize = 0;
    while i < v.len()
        invariant
            i <= v@.len(),
            views(out@) == v@.take(i as int).map_values(|s: &str| s@),
        decreases v@.len() - i,
    {
        let t = text(v[i]);
        proof {
            crate::argv::lemma_views_push(out@, t);
        }
        out.push(t);
        assert(v@.take(i + 1) =~= v@.take(i as int).push(v@[i as int]));
        i += 1;
        assert(views(out@) =~= v@.take(i as int).map_values(|s: &str| s@));
    }
    assert(v@.take(v@.len() as int) =~= v@);
    out
}

fn chosen_terminal(preferred: Option<&str>, available: &[String], fallback: &str) -> (r: String)
    ensures
        r@ == pick(crate::argv::str_opt_view(preferred), views(available@), fallback@),
{
    match preferred {
        Some(p) => if strings_contain(available, p) {
            text(p)
        } else {
            text(fallback)
        },
        None => text(fallback),
    }
}

fn with_last(v: Vec<&str>, last: &str) -> (r: Vec<String>)
    ensures
        views(r@) == v@.map_values(|s: &str| s@).push(last@),
{
    let mut out = strs(v);
    let t = text(last);
    proof {
        crate::argv::lemma_views_push(out@, t);
    }
    out.push(t);
    out
}

/// iTerm2's launch: the script that opens a window of the dashboard size
/// and types the command into it, run against "iTerm".
pub fn spawn_iterm2(shell_cmd: &str) -> (r: DashboardLaunch)
    ensures
        r@ == LaunchView::AppleScript(iterm2_script_text(shell_cmd@), "iTerm"@),
{
    DashboardLaunch::AppleScript { script: iterm2_script(shell_cmd), app: text("iTerm") }
}

/// How macOS opens the dashboard. `available` are the ids of the installed
/// terminals.
pub fn macos_dashboard_launch(shell_cmd: &str, preferred: Option<&str>, available: &[String]) -> (r: DashboardLaunch)
    ensures
        r@ == macos_launch(shell_cmd@, crate::argv::str_opt_view(preferred), views(available@)),
{
    let chosen = chosen_terminal(preferred, available, "terminal");
    let c = chosen.as_str();
    if same_text(c, "iterm2") {
        spawn_iterm2(shell_cmd)
    } else if same_text(c, "ghostty") {
        let args = with_last(
            vec!["--window-width=140", "--window-height=42", "-e", "/bin/sh", "-c"],
            shell_cmd,
        );
        let r = DashboardLaunch::OpenApp { bundle: text("Ghostty"), args };
        assert(r@ == macos_launch(shell_cmd@, crate::argv::str_opt_view(preferred), views(available@))) by {
            assert(views(args@) =~= seq!["--window-width=140"@, "--window-height=42"@, "-e"@, "/bin/sh"@, "-c"@, shell_cmd@]);
        }
        r
    } else if same_text(c, "alacritty") {
        let args = with_last(
            vec![
                "-o",
                "window.dimensions.columns=140",
                "-o",
                "window.dimensions.lines=42",
                "-e",
                "/bin/sh",
                "-c",
            ],
            shell_cmd,
        );
        let r = DashboardLaunch::OpenApp { bundle: text("Alacritty"), args };
        assert(r@ == macos_launch(shell_cmd@, crate::argv::str_opt_view(preferred), views(available@))) by {
            assert(views(args@) =~= seq![
                "-o"@,
                "window.dimensions.columns=140"@,
                "-o"@,
                "window.dimensions.lines=42"@,
                "-e"@,
                "/bin/sh"@,
                "-c"@,
                shell_cmd@,
            ]);
        }
        r
    } else if same_text(c, "kitty") {
        let args = with_last(
            vec![
                "-o",
                "initial_window_width=140c",
                "-o",
                "initial_window_height=42c",
                "/bin/sh",
                "-c",
            ],
            shell_cmd,
        );
        let r = DashboardLaunch::OpenApp { bundle: text("kitty"), args };
        assert(r@ == macos_launch(shell_cmd@, crate::argv::str_opt_view(preferred), views(available@))) by {
            assert(views(args@) =~= seq![
                "-o"@,
                "initial_window_width=140c"@,
                "-o"@,
                "initial_window_height=42c"@,
                "/bin/sh"@,
                "-c"@,
                shell_cmd@,
            ]);
        }
        r
    } else if same_text(c, "wezterm") {
        let args = with_last(
            vec![
                "--config",
                "initial_cols=140",
                "--config",
                "initial_rows=42",
                "start",
                "--",
                "/bin/sh",
                "-c",
            ],
            shell_cmd,
        );
        let r = DashboardLaunch::WezTerm { args };
        assert(r@ == macos_launch(shell_cmd@, crate::argv::str_opt_view(preferred), views(available@))) by {
            assert(views(args@) =~= seq![
                "--config"@,
                "initial_cols=140"@,
                "--config"@,
                "initial_rows=42"@,
                "start"@,
                "--"@,
                "/bin/sh"@,
                "-c"@,
                shell_cmd@,
            ]);
        }
        r
    } else {
        DashboardLaunch::AppleScript { script: terminal_script(shell_cmd), app: text("Terminal") }
    }
}

/// The Windows launch: Windows Terminal when it is chosen (by preference
/// or, without one, by being installed) and on PATH, else the command prompt.
pub open spec fn windows_launch(shell: Seq<char>, preferred: Option<Seq<char>>, available: Seq<Seq<char>>, wt_on_path: bool) -> LaunchView {
    let chosen = pick(preferred, available, if wt_on_path { "wt"@ } else { "cmd"@ });
    if chosen == "wt"@ && wt_on_path {
        LaunchView::Spawn("wt"@, seq!["--size"@, "140,42"@, "new-tab"@, "cmd"@, "/k"@, shell])
    } else {
        LaunchView::Spawn("cmd"@, seq!["/k"@, shell])
    }
}

pub fn windows_dashboard_launch(shell_cmd: &str, preferred: Option<&str>, available: &[String], wt_on_path: bool) -> (r: DashboardLaunch)
    ensures
        r@ == windows_launch(shell_cmd@, crate::argv::str_opt_view(preferred), views(available@), wt_on_path),
{
    let chosen = chosen_terminal(preferred, available, if wt_on_path { "wt" } else { "cmd" });
    if same_text(chosen.as_str(), "wt") && wt_on_path {
        let args = with_last(vec!["--size", "140,42", "new-tab", "cmd", "/k"], shell_cmd);
        let r = DashboardLaunch::Spawn { program: text("wt"), args };
        assert(r@ == windows_launch(shell_cmd@, crate::argv::str_opt_view(preferred), views(available@), wt_on_path)) by {
            assert(views(args@) =~= seq!["--size"@, "140,42"@, "new-tab"@, "cmd"@, "/k"@, shell_cmd@]);
        }
        r
    } else {
        let args = with_last(vec!["/k"], shell_cmd);
        let r = DashboardLaunch::Spawn { program: text("cmd"), args };
        assert(r@ == windows_launch(shell_cmd@, crate::argv::str_opt_view(preferred), views(available@), wt_on_path)) by {
            assert(views(args@) =~= seq!["/k"@, shell_cmd@]);
        }
        r
    }
}

/// The order Linux tries terminals in: the preference, then the known ones.
pub open spec fn linux_order(preferred: Option<Seq<char>>) -> Seq<Seq<char>> {
    (match preferred {
        Some(p) => seq![p],
        None => Seq::empty(),
    }) + seq!["x-terminal-emulator"@, "gnome-terminal"@, "konsole"@, "xterm"@]
}

/// The first of `order[k..]` found on PATH.
pub open spec fn first_on_path(order: Seq<Seq<char>>, on_path: Seq<Seq<char>>, k: int) -> Option<Seq<char>>
    decreases order.len() - k,
{
    if k < 0 || k >= order.len() {
        None
    } else if on_path.contains(order[k]) {
        Some(order[k])
    } else {
        first_on_path(order, on_path, k + 1)
    }
}

/// The Linux launch: the first terminal of the order found on PATH, running
/// the command under bash (`--` for GNOME Terminal and Konsole, `-e` else).
pub open spec fn linux_launch(shell: Seq<char>, preferred: Option<Seq<char>>, on_path: Seq<Seq<char>>) -> LaunchView {
    match first_on_path(linux_order(preferred), on_path, 0) {
        Some(t) => LaunchView::Spawn(
            t,
            seq![
                if t == "gnome-terminal"@ || t == "konsole"@ {
                    "--"@
                } else {
                    "-e"@
                },
                "bash"@,
                "-c"@,
                shell,
            ],
        ),
        None => LaunchView::NoTerminal,
    }
}

/// `on_path` names the candidates found on PATH.
pub fn linux_dashboard_launch(shell_cmd: &str, preferred: Option<&str>, on_path: &[String]) -> (r: DashboardLaunch)
    ensures
        r@ == linux_launch(shell_cmd@, crate::argv::str_opt_view(preferred), views(on_path@)),
{
    let mut order: Vec<String> = Vec::new();
    match preferred {
        Some(p) => order.push(text(p)),
        None => {},
    }
    let rest = strs(vec!["x-terminal-emulator", "gnome-terminal", "konsole", "xterm"]);
    let mut k: usize = 0;
    let ghost pref = crate::argv::str_opt_view(preferred);
    assert(views(order@) == match pref { Some(p) => seq![p], None => Seq::<Seq<char>>::empty() }) by {
        assert(views(order@) =~= match pref { Some(p) => seq![p], None => Seq::<Seq<char>>::empty() });
    }
    assert(views(rest@) =~= seq!["x-terminal-emulator"@, "gnome-terminal"@, "konsole"@, "xterm"@]);
    while k < rest.len()
        invariant
            k <= rest@.len(),
            views(rest@) == seq!["x-terminal-emulator"@, "gnome-terminal"@, "konsole"@, "xterm"@],
            views(order@) == (match pref { Some(p) => seq![p], None => Seq::<Seq<char>>::empty() }) + views(rest@).take(k as int),
        decreases rest@.len() - k,
    {
        let t = rest[k].clone();
        proof {
            crate::argv::lemma_views_push(order@, t);
        }
        order.push(t);
        k += 1;
        assert(views(order@) =~= (match pref { Some(p) => seq![p], None => Seq::<Seq<char>>::empty() }) + views(rest@).take(k as int));
    }
    assert(views(order@) =~= linux_order(pref));
    let ghost ord = views(order@);
    let mut i: usize = 0;
    while i < order.len()
        invariant
            ord == views(order@),
            ord == linux_order(pref),
            pref == crate::argv::str_opt_view(preferred),
            i <= order@.len(),
            first_on_path(ord, views(on_path@), 0) == first_on_path(ord, views(on_path@), i as int),
        decreases order@.len() - i,
    {
        assert(ord[i as int] == order@[i as int]@);
        if strings_contain(on_path, order[i].as_str()) {
            assert(first_on_path(ord, views(on_path@), i as int) == Some(ord[i as int]));
            let t = order[i].clone();
            let flag = if same_text(t.as_str(), "gnome-terminal") || same_text(t.as_str(), "konsole") {
                "--"
            } else {
                "-e"
            };
            let args = with_last(vec![flag, "bash", "-c"], shell_cmd);
            let r = DashboardLaunch::Spawn { program: t, args };
            assert(r@ == linux_launch(shell_cmd@, pref, views(on_path@))) by {
                assert(views(args@) =~= seq![flag@, "bash"@, "-c"@, shell_cmd@]);
            }
            return r;
        }
        assert(first_on_path(ord, views(on_path@), i as int) == first_on_path(ord, views(on_path@), i + 1));
        i += 1;
    }
    assert(first_on_path(ord, views(on_path@), i as int) == None::<Seq<char>>);
    DashboardLaunch::NoTerminal
}

/// Why an AppleScript launch failed: macOS refusing Automation (error
/// -1712) gets its own advice; otherwise the trimmed stderr, or the exit
/// status when stderr is blank.
pub open spec fn osascript_failure_text(app: Seq<char>, stderr: Seq<char>, status: Seq<char>) -> Seq<char> {
    if crate::text::contains(stderr, "-1712"@) {
        "macOS blocked mountOS Desktop from controlling "@ + app
            + ". Grant it in System Settings \u{2192} Privacy & Security \u{2192} Automation, then try again."@
    } else if stderr.len() == 0 {
        "osascript exited with "@ + status
    } else {
        stderr
    }
}

/// The error of a failed `osascript` run; `stderr` is already trimmed.
pub fn osascript_failure(app: &str, stderr: &str, status_text: &str) -> (r: crate::error::DesktopError)
    ensures
        r matches crate::error::DesktopError::Message(m) && m@ == osascript_failure_text(app@, stderr@, status_text@),
{
    if crate::text::contains_str(stderr, "-1712") {
        let mut m = text("macOS blocked mountOS Desktop from controlling ");
        m.append(app);
        m.append(". Grant it in System Settings \u{2192} Privacy & Security \u{2192} Automation, then try again.");
        crate::error::DesktopError::Message(m)
    } else if stderr.is_empty() {
        let mut m = text("osascript exited with ");
        m.append(status_text);
        crate::error::DesktopError::Message(m)
    } else {
        crate::error::DesktopError::Message(text(stderr))
    }
}

/// The error of a failed `open -na <bundle>`; `stderr` is already trimmed.
pub fn open_app_failure(bundle: &str, stderr: &str, status_text: &str) -> (r: crate::error::DesktopError)
    ensures
        r matches crate::error::DesktopError::Message(m) && m@ == (if stderr@.len() == 0 {
            "open -na "@ + bundle@ + " exited with "@ + status_text@
        } else {
            stderr@
        }),
{
    if stderr.is_empty() {
        let mut m = text("open -na ");
        m.append(bundle);
        m.append(" exited with ");
        m.append(status_text);
        crate::error::DesktopError::Message(m)
    } else {
        crate::error::DesktopError::Message(text(stderr))
    }
}

/// The error when no terminal of the Linux order is on PATH.
pub fn no_terminal_error() -> (r: crate::error::DesktopError)
    ensures
        r matches crate::error::DesktopError::Message(m) && m@ == "no terminal emulator found on PATH"@,
{
    crate::error::DesktopError::Message(text("no terminal emulator found on PATH"))
}

/// The error when WezTerm was chosen but its bundle is gone.
pub fn wezterm_missing_error() -> (r: crate::error::DesktopError)
    ensures
        r matches crate::error::DesktopError::Message(m) && m@ == "WezTerm.app not found"@,
{
    crate::error::DesktopError::Message(text("WezTerm.app not found"))
}

} // verus!
