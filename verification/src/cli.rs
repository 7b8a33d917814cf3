//! The host's command line: how its arguments read as flags and
//! positionals, which command they name, the settings `serve` takes from
//! them, and the lines each command prints.

use vstd::prelude::*;
use crate::env::{env_get, env_set, lookup, pairs_view, upsert, opt_text, Pairs};
use crate::admin::{DeviceSummaryDto, HostDiagnosticsResult, HostRunState, HostStatusResult, LogEntryDto, PairingCreateResult, PairingSummaryDto, SessionDiagnosticsDto};
use crate::dto::SessionSummaryDto;
use crate::session_types::SessionStatus;
use crate::text::{decimal_u64, owned, spec_decimal, str_equal, string_texts, trim, spec_trim};

verus! {

/// Whether `s` begins with `--`.
pub open spec fn dashed(s: Seq<char>) -> bool {
    s.len() >= 2 && s[0] == '-' && s[1] == '-'
}

/// The index of the first `c` in `s`, or -1.
pub open spec fn char_index(s: Seq<char>, c: char) -> int
    decreases s.len(),
{
    if s.len() == 0 {
        -1
    } else if s[0] == c {
        0
    } else {
        let rest = char_index(s.drop_first(), c);
        if rest < 0 { -1 } else { rest + 1 }
    }
}

/// The flags that take no value.
pub open spec fn boolean_flag(key: Seq<char>) -> bool {
    key == "json"@ || key == "no-dev"@ || key == "help"@
}

/// The flags and positionals that `args` from index `i` on add to `flags`
/// and `positionals`. `--key=value` sets a flag; a flag that takes no value
/// is set to `true`; any other flag takes the next argument as its value
/// unless that one is a flag too, and is `true` otherwise; anything else is
/// a positional. A flag given twice keeps its last value.
pub open spec fn parse_from(args: Seq<Seq<char>>, i: int, flags: Pairs, positionals: Seq<Seq<char>>) -> (
    Pairs,
    Seq<Seq<char>>,
)
    decreases args.len() - i,
{
    if i < 0 || i >= args.len() {
        (flags, positionals)
    } else {
        let arg = args[i];
        if dashed(arg) {
            let rest = arg.skip(2);
            let eq = char_index(rest, '=');
            if eq >= 0 {
                parse_from(args, i + 1, env_set(flags, rest.take(eq), rest.skip(eq + 1)), positionals)
            } else if boolean_flag(rest) {
                parse_from(args, i + 1, env_set(flags, rest, "true"@), positionals)
            } else if i + 1 < args.len() && !dashed(args[i + 1]) {
                parse_from(args, i + 2, env_set(flags, rest, args[i + 1]), positionals)
            } else {
                parse_from(args, i + 1, env_set(flags, rest, "true"@), positionals)
            }
        } else {
            parse_from(args, i + 1, flags, positionals.push(arg))
        }
    }
}

/// The flags and positionals of a command line.
pub open spec fn parsed(args: Seq<Seq<char>>) -> (Pairs, Seq<Seq<char>>) {
    parse_from(args, 0, Seq::empty(), Seq::empty())
}

fn is_dashed(s: &str) -> (res: bool)
    ensures
        res == dashed(s@),
{
    s.unicode_len() >= 2 && s.get_char(0) == '-' && s.get_char(1) == '-'
}

fn char_position(s: &str, c: char) -> (res: Option<usize>)
    ensures
        match res {
            Some(i) => i as int == char_index(s@, c) && i < s@.len(),
            None => char_index(s@, c) == -1,
        },
{
    let n = s.unicode_len();
    let mut i: usize = 0;
    proof {
        assert(s@.skip(0) =~= s@);
    }
    while i < n
        invariant
            n == s@.len(),
            i <= n,
            char_index(s@, c) == if char_index(s@.skip(i as int), c) < 0 { -1 } else { char_index(
                s@.skip(i as int),
                c,
            ) + i },
        decreases n - i,
    {
        proof {
            assert(s@.skip(i as int).drop_first() =~= s@.skip(i + 1));
            assert(s@.skip(i as int)[0] == s@[i as int]);
        }
        if s.get_char(i) == c {
            return Some(i);
        }
        i = i + 1;
    }
    proof {
        assert(s@.skip(i as int).len() == 0);
    }
    None
}

/// Whether `key` is a flag that takes no value.
pub fn is_boolean_flag(key: &str) -> (res: bool)
    ensures
        res == boolean_flag(key@),
{
    str_equal(key, "json") || str_equal(key, "no-dev") || str_equal(key, "help")
}

/// A command line read as flags and positionals.
pub struct Options {
    pub flags: Vec<(String, String)>,
    pub positionals: Vec<String>,
}

impl Options {
    /// Reads `args`: see [`parse_from`].
    pub fn parse(args: &Vec<String>) -> (res: Self)
        ensures
            (pairs_view(res.flags@), string_texts(res.positionals@)) == parsed(string_texts(args@)),
    {
        let ghost texts = string_texts(args@);
        let mut flags: Vec<(String, String)> = Vec::new();
        let mut positionals: Vec<String> = Vec::new();
        let mut index: usize = 0;
        proof {
            assert(pairs_view(flags@) =~= Seq::<(Seq<char>, Seq<char>)>::empty());
            assert(string_texts(positionals@) =~= Seq::<Seq<char>>::empty());
        }
        while index < args.len()
            invariant
                index <= args@.len(),
                texts == string_texts(args@),
                parsed(texts) == parse_from(texts, index as int, pairs_view(flags@), string_texts(positionals@)),
            decreases args.len() - index,
        {
            let arg = args[index].as_str();
            assert(texts[index as int] == arg@);
            if is_dashed(arg) {
                let n = arg.unicode_len();
                let rest = arg.substring_char(2, n);
                assert(rest@ =~= arg@.skip(2));
                match char_position(rest, '=') {
                    Some(eq) => {
                        let m = rest.unicode_len();
                        let key = owned(rest.substring_char(0, eq));
                        let value = owned(rest.substring_char(eq + 1, m));
                        assert(key@ =~= rest@.take(eq as int));
                        assert(value@ =~= rest@.skip(eq + 1));
                        upsert(&mut flags, key, value);
                    },
                    None => {
                        if is_boolean_flag(rest) {
                            upsert(&mut flags, owned(rest), owned("true"));
                        } else if index + 1 < args.len() && !is_dashed(args[index + 1].as_str()) {
                            assert(texts[index + 1] == args@[index + 1]@);
                            upsert(&mut flags, owned(rest), args[index + 1].clone());
                            index = index + 1;
                        } else {
                            upsert(&mut flags, owned(rest), owned("true"));
                        }
                    },
                }
            } else {
                let ghost before = positionals@;
                positionals.push(args[index].clone());
                assert(string_texts(positionals@) =~= string_texts(before).push(arg@));
            }
            index = index + 1;
        }
        Options { flags, positionals }
    }

    /// The value of flag `key`.
    pub fn get(&self, key: &str) -> (res: Option<String>)
        ensures
            opt_text(res) == env_get(pairs_view(self.flags@), key@),
    {
        lookup(&self.flags, key)
    }

    /// Whether flag `key` was given.
    pub fn has(&self, key: &str) -> (res: bool)
        ensures
            res == env_get(pairs_view(self.flags@), key@) is Some,
    {
        lookup(&self.flags, key).is_some()
    }

    /// The gateway address: `--addr`, else `--bind`, else the loopback
    /// default.
    pub fn socket_addr(&self) -> (res: String)
        ensures
            res@ == match env_get(pairs_view(self.flags@), "addr"@) {
                Some(a) => a,
                None => match env_get(pairs_view(self.flags@), "bind"@) {
                    Some(b) => b,
                    None => "127.0.0.1:8787"@,
                },
            },
    {
        match self.get("addr") {
            Some(a) => a,
            None => match self.get("bind") {
                Some(b) => b,
                None => owned("127.0.0.1:8787"),
            },
        }
    }

    /// The credential to present: `--token`, else `env_token` (the
    /// `SLIGHT_DEVICE_TOKEN` variable), else `dev`.
    pub fn token(&self, env_token: Option<String>) -> (res: String)
        ensures
            res@ == match env_get(pairs_view(self.flags@), "token"@) {
                Some(t) => t,
                None => match env_token {
                    Some(t) => t@,
                    None => "dev"@,
                },
            },
    {
        match self.get("token") {
            Some(t) => t,
            None => match env_token {
                Some(t) => t,
                None => owned("dev"),
            },
        }
    }

    /// Whether output is JSON.
    pub fn json(&self) -> (res: bool)
        ensures
            res == env_get(pairs_view(self.flags@), "json"@) is Some,
    {
        self.has("json")
    }
}

/// `s` cut at each `,`.
pub open spec fn comma_pieces(s: Seq<char>) -> Seq<Seq<char>>
    decreases s.len(),
{
    let i = char_index(s, ',');
    if i < 0 {
        seq![s]
    } else {
        proof {
            lemma_char_index_bound(s, ',');
        }
        seq![s.take(i)] + comma_pieces(s.skip(i + 1))
    }
}

/// `char_index` is -1 or an index of `s`.
pub proof fn lemma_char_index_bound(s: Seq<char>, c: char)
    ensures
        -1 <= char_index(s, c) < s.len(),
    decreases s.len(),
{
    if s.len() > 0 && s[0] != c {
        lemma_char_index_bound(s.drop_first(), c);
    }
}

/// The addresses of a comma separated list, each trimmed.
pub fn bind_list(s: &str) -> (res: Vec<String>)
    ensures
        string_texts(res@) == comma_pieces(s@).map_values(|p: Seq<char>| spec_trim(p)),
{
    let mut res: Vec<String> = Vec::new();
    let mut rest: &str = s;
    proof {
        assert(string_texts(res@) =~= Seq::<Seq<char>>::empty());
    }
    loop
        invariant
            comma_pieces(s@).map_values(|p: Seq<char>| spec_trim(p)) == string_texts(res@) + comma_pieces(
                rest@,
            ).map_values(|p: Seq<char>| spec_trim(p)),
        decreases rest@.len(),
    {
        let ghost before = res@;
        match char_position(rest, ',') {
            Some(i) => {
                let head = rest.substring_char(0, i);
                let piece = owned(trim(head));
                let n = rest.unicode_len();
                let next = rest.substring_char(i + 1, n);
                proof {
                    assert(head@ =~= rest@.take(i as int));
                    assert(next@ =~= rest@.skip(i + 1));
                    let tail = comma_pieces(rest@.skip(i + 1));
                    assert(comma_pieces(rest@) == seq![rest@.take(i as int)] + tail);
                    assert((seq![rest@.take(i as int)] + tail).map_values(|p: Seq<char>| spec_trim(p))
                        =~= seq![spec_trim(rest@.take(i as int))] + tail.map_values(|p: Seq<char>| spec_trim(p)));
                }
                res.push(piece);
                proof {
                    assert(string_texts(res@) =~= string_texts(before).push(piece@));
                    assert(string_texts(before).push(piece@) + comma_pieces(next@).map_values(|p: Seq<char>| spec_trim(p))
                        =~= string_texts(before) + (seq![piece@] + comma_pieces(next@).map_values(|p: Seq<char>| spec_trim(p))));
                }
                rest = next;
            },
            None => {
                let piece = owned(trim(rest));
                res.push(piece);
                proof {
                    assert(comma_pieces(rest@) == seq![rest@]);
                    assert(seq![rest@].map_values(|p: Seq<char>| spec_trim(p)) =~= seq![spec_trim(rest@)]);
                    assert(string_texts(res@) =~= string_texts(before).push(piece@));
                    assert(string_texts(before) + seq![piece@] =~= string_texts(before).push(piece@));
                }
                return res;
            },
        }
    }
}

/// A command of the host's command line.
#[derive(Debug, Clone, Copy, PartialEq, Eq, Structural)]
pub enum CliCommand {
    Serve,
    Status,
    Sessions,
    Diagnostics,
    Devices,
    Pairings,
    Pair,
    Revoke,
    Help,
    Unknown,
}

/// The command `name` names.
pub open spec fn command_of(name: Seq<char>) -> CliCommand {
    if name == "serve"@ {
        CliCommand::Serve
    } else if name == "status"@ {
        CliCommand::Status
    } else if name == "sessions"@ {
        CliCommand::Sessions
    } else if name == "diagnostics"@ {
        CliCommand::Diagnostics
    } else if name == "devices"@ {
        CliCommand::Devices
    } else if name == "pairings"@ {
        CliCommand::Pairings
    } else if name == "pair"@ {
        CliCommand::Pair
    } else if name == "revoke"@ {
        CliCommand::Revoke
    } else if name == "help"@ || name == "--help"@ || name == "-h"@ {
        CliCommand::Help
    } else {
        CliCommand::Unknown
    }
}

/// Each command word names the command of the same name: a command is
/// reached by its word alone, help by any of its three spellings, and any
/// other word is unknown. So distinct words that are not spellings of help
/// name distinct commands.
pub proof fn law_each_word_names_its_command(w: Seq<char>)
    ensures
        command_of(w) == CliCommand::Serve <==> (w == "serve"@),
        command_of(w) == CliCommand::Status <==> (w == "status"@),
        command_of(w) == CliCommand::Sessions <==> (w == "sessions"@),
        command_of(w) == CliCommand::Diagnostics <==> (w == "diagnostics"@),
        command_of(w) == CliCommand::Devices <==> (w == "devices"@),
        command_of(w) == CliCommand::Pairings <==> (w == "pairings"@),
        command_of(w) == CliCommand::Pair <==> (w == "pair"@),
        command_of(w) == CliCommand::Revoke <==> (w == "revoke"@),
        command_of(w) == CliCommand::Help <==> (w == "help"@ || w == "--help"@ || w == "-h"@),
{
    reveal_strlit("serve");
    reveal_strlit("status");
    reveal_strlit("sessions");
    reveal_strlit("diagnostics");
    reveal_strlit("devices");
    reveal_strlit("pairings");
    reveal_strlit("pair");
    reveal_strlit("revoke");
    reveal_strlit("help");
    reveal_strlit("--help");
    reveal_strlit("-h");
    assert("serve"@.len() == 5);
    assert("status"@.len() == 6);
    assert("sessions"@.len() == 8);
    assert("diagnostics"@.len() == 11);
    assert("devices"@.len() == 7);
    assert("pairings"@.len() == 8);
    assert("pair"@.len() == 4);
    assert("revoke"@.len() == 6);
    assert("help"@.len() == 4);
    assert("--help"@.len() == 6);
    assert("-h"@.len() == 2);
    assert("status"@[0] != "revoke"@[0]);
    assert("status"@[0] != "--help"@[0]);
    assert("sessions"@[0] != "pairings"@[0]);
    assert("pair"@[0] != "help"@[0]);
    assert("revoke"@[0] != "--help"@[0]);
}

/// The command `name` names.
pub fn cli_command(name: &str) -> (res: CliCommand)
    ensures
        res == command_of(name@),
{
    if str_equal(name, "serve") {
        CliCommand::Serve
    } else if str_equal(name, "status") {
        CliCommand::Status
    } else if str_equal(name, "sessions") {
        CliCommand::Sessions
    } else if str_equal(name, "diagnostics") {
        CliCommand::Diagnostics
    } else if str_equal(name, "devices") {
        CliCommand::Devices
    } else if str_equal(name, "pairings") {
        CliCommand::Pairings
    } else if str_equal(name, "pair") {
        CliCommand::Pair
    } else if str_equal(name, "revoke") {
        CliCommand::Revoke
    } else if str_equal(name, "help") || str_equal(name, "--help") || str_equal(name, "-h") {
        CliCommand::Help
    } else {
        CliCommand::Unknown
    }
}

/// What `serve` runs with, as the command line gives it: paths and
/// addresses as text, and `None` where the host's own default applies.
pub struct ServeSettings {
    pub dev_mode: bool,
    pub dev_token: Option<String>,
    pub binds: Vec<String>,
    pub host_name: String,
    pub server_id: String,
    pub opencode_program: Option<String>,
    pub session_store: Option<String>,
    pub log_dir: Option<String>,
}

/// The value of flag `key`, else `default`.
pub open spec fn flag_or(flags: Pairs, key: Seq<char>, default: Seq<char>) -> Seq<char> {
    match env_get(flags, key) {
        Some(v) => v,
        None => default,
    }
}

/// The settings `serve` takes from `options`. Development mode is on unless
/// `--no-dev` is given, and then the development token is the credential
/// of [`Options::token`]. The OpenCode program is `--opencode-bin`, else
/// the one the user configuration names.
pub fn serve_settings(options: &Options, env_token: Option<String>, configured_opencode: Option<String>) -> (res:
    ServeSettings)
    ensures
        ({
            let flags = pairs_view(options.flags@);
            &&& res.dev_mode == !(env_get(flags, "no-dev"@) is Some)
            &&& res.dev_mode ==> (res.dev_token matches Some(t) && t@ == match env_get(flags, "token"@) {
                Some(t) => t,
                None => match env_token {
                    Some(t) => t@,
                    None => "dev"@,
                },
            })
            &&& !res.dev_mode ==> res.dev_token is None
            &&& string_texts(res.binds@) == comma_pieces(flag_or(flags, "addr"@, flag_or(flags, "bind"@, "127.0.0.1:8787"@)))
                .map_values(|p: Seq<char>| spec_trim(p))
            &&& res.host_name@ == flag_or(flags, "host-name"@, "slight-host"@)
            &&& res.server_id@ == flag_or(flags, "server-id"@, "slight-local"@)
            &&& opt_text(res.opencode_program) == match env_get(flags, "opencode-bin"@) {
                Some(p) => Some(p),
                None => opt_text(configured_opencode),
            }
            &&& opt_text(res.session_store) == env_get(flags, "session-store"@)
            &&& opt_text(res.log_dir) == env_get(flags, "log-dir"@)
        }),
{
    let dev_mode = !options.has("no-dev");
    let dev_token = if dev_mode { Some(options.token(env_token)) } else { None };
    let address = options.socket_addr();
    let binds = bind_list(address.as_str());
    let host_name = match options.get("host-name") {
        Some(v) => v,
        None => owned("slight-host"),
    };
    let server_id = match options.get("server-id") {
        Some(v) => v,
        None => owned("slight-local"),
    };
    let opencode_program = match options.get("opencode-bin") {
        Some(p) => Some(p),
        None => configured_opencode,
    };
    ServeSettings {
        dev_mode,
        dev_token,
        binds,
        host_name,
        server_id,
        opencode_program,
        session_store: options.get("session-store"),
        log_dir: options.get("log-dir"),
    }
}

/// `items` joined with `sep` between them.
pub open spec fn joined(items: Seq<Seq<char>>, sep: Seq<char>) -> Seq<char>
    decreases items.len(),
{
    if items.len() == 0 {
        Seq::empty()
    } else if items.len() == 1 {
        items[0]
    } else {
        joined(items.drop_last(), sep) + sep + items.last()
    }
}

/// `items` joined with `sep` between them.
pub fn join_strings(items: &Vec<String>, sep: &str) -> (res: String)
    ensures
        res@ == joined(string_texts(items@), sep@),
{
    let mut res = String::new();
    let mut i: usize = 0;
    while i < items.len()
        invariant
            i <= items@.len(),
            res@ == joined(string_texts(items@.take(i as int)), sep@),
        decreases items.len() - i,
    {
        proof {
            assert(string_texts(items@.take(i + 1)).drop_last() =~= string_texts(items@.take(i as int)));
            assert(string_texts(items@.take(i + 1)).last() == items@[i as int]@);
            if i == 0 {
                assert(string_texts(items@.take(0)).len() == 0);
            }
        }
        if i > 0 {
            res.append(sep);
        }
        res.append(items[i].as_str());
        i = i + 1;
    }
    assert(items@.take(i as int) =~= items@);
    res
}

/// The text of a boolean, as `Display` prints it.
pub open spec fn bool_text(b: bool) -> Seq<char> {
    if b { "true"@ } else { "false"@ }
}

fn bool_str(b: bool) -> (res: &'static str)
    ensures
        res@ == bool_text(b),
{
    if b { "true" } else { "false" }
}

/// The name of a run state, as `Debug` prints it.
pub open spec fn run_state_name(state: HostRunState) -> Seq<char> {
    match state {
        HostRunState::Stopped => "Stopped"@,
        HostRunState::Starting => "Starting"@,
        HostRunState::Running => "Running"@,
        HostRunState::Stopping => "Stopping"@,
        HostRunState::Failed => "Failed"@,
    }
}

fn run_state_str(state: HostRunState) -> (res: &'static str)
    ensures
        res@ == run_state_name(state),
{
    match state {
        HostRunState::Stopped => "Stopped",
        HostRunState::Starting => "Starting",
        HostRunState::Running => "Running",
        HostRunState::Stopping => "Stopping",
        HostRunState::Failed => "Failed",
    }
}

/// The wire name of a session status.
pub open spec fn status_name(status: SessionStatus) -> Seq<char> {
    match status {
        SessionStatus::Idle => "idle"@,
        SessionStatus::Working => "working"@,
        SessionStatus::WaitingPermission => "waiting_permission"@,
        SessionStatus::Exited => "exited"@,
        SessionStatus::Failed => "failed"@,
    }
}

/// The wire name of a session status.
pub fn status_str(status: SessionStatus) -> (res: &'static str)
    ensures
        res@ == status_name(status),
{
    match status {
        SessionStatus::Idle => "idle",
        SessionStatus::Working => "working",
        SessionStatus::WaitingPermission => "waiting_permission",
        SessionStatus::Exited => "exited",
        SessionStatus::Failed => "failed",
    }
}

/// The decimal text of `n`.
pub fn count_text(n: usize) -> (res: String)
    ensures
        res@ == spec_decimal(n as nat),
{
    decimal_u64(n as u64)
}

/// The lines `status` prints.
pub fn status_lines(status: &HostStatusResult) -> (res: Vec<String>)
    ensures
        res@.len() == 8,
        res@[0]@ == "state:            "@ + run_state_name(status.state),
        res@[1]@ == "host:             "@ + status.host_name@,
        res@[2]@ == "server_id:        "@ + status.server_id@,
        res@[3]@ == "listener:         "@ + match status.listener {
            Some(l) => l@,
            None => Seq::<char>::empty(),
        },
        res@[4]@ == "sessions:         "@ + spec_decimal(status.session_count as nat) + " ("@ + spec_decimal(
            status.active_session_count as nat,
        ) + " active)"@,
        res@[5]@ == "paired devices:   "@ + spec_decimal(status.paired_device_count as nat),
        res@[6]@ == "uptime_ms:        "@ + spec_decimal(status.uptime_ms as nat),
        res@[7]@ == "supported agents: "@ + joined(string_texts(status.supported_agents@), ", "@),
{
    let mut lines: Vec<String> = Vec::new();
    let mut line = owned("state:            ");
    line.append(run_state_str(status.state));
    lines.push(line);
    let mut line = owned("host:             ");
    line.append(status.host_name.as_str());
    lines.push(line);
    let mut line = owned("server_id:        ");
    line.append(status.server_id.as_str());
    lines.push(line);
    let mut line = owned("listener:         ");
    match &status.listener {
        Some(l) => line.append(l.as_str()),
        None => {},
    }
    lines.push(line);
    let mut line = owned("sessions:         ");
    line.append(count_text(status.session_count).as_str());
    line.append(" (");
    line.append(count_text(status.active_session_count).as_str());
    line.append(" active)");
    lines.push(line);
    let mut line = owned("paired devices:   ");
    line.append(count_text(status.paired_device_count).as_str());
    lines.push(line);
    let mut line = owned("uptime_ms:        ");
    line.append(decimal_u64(status.uptime_ms).as_str());
    lines.push(line);
    let mut line = owned("supported agents: ");
    line.append(join_strings(&status.supported_agents, ", ").as_str());
    lines.push(line);
    lines
}

/// The line a session prints.
pub open spec fn session_text(session: SessionSummaryDto) -> Seq<char> {
    session.id@ + " ["@ + status_name(session.status) + "] agent="@ + session.agent@ + " dir="@
        + session.working_directory_label@ + " seq="@ + spec_decimal(session.last_sequence as nat) + " title="@
        + session.title@
}

/// The line a session prints.
pub fn session_line(session: &SessionSummaryDto) -> (res: String)
    ensures
        res@ == session_text(*session),
{
    let mut line = session.id.clone();
    line.append(" [");
    line.append(status_str(session.status));
    line.append("] agent=");
    line.append(session.agent.as_str());
    line.append(" dir=");
    line.append(session.working_directory_label.as_str());
    line.append(" seq=");
    line.append(decimal_u64(session.last_sequence).as_str());
    line.append(" title=");
    line.append(session.title.as_str());
    line
}

/// The line a device prints.
pub open spec fn device_text(device: DeviceSummaryDto) -> Seq<char> {
    device.device_id@ + " ["@ + device.label@ + "] revoked="@ + bool_text(device.revoked) + " last_seen="@
        + device.last_seen_at@
}

/// The line a device prints.
pub fn device_line(device: &DeviceSummaryDto) -> (res: String)
    ensures
        res@ == device_text(*device),
{
    let mut line = device.device_id.clone();
    line.append(" [");
    line.append(device.label.as_str());
    line.append("] revoked=");
    line.append(bool_str(device.revoked));
    line.append(" last_seen=");
    line.append(device.last_seen_at.as_str());
    line
}

/// The line a pairing prints.
pub open spec fn pairing_text(pairing: PairingSummaryDto) -> Seq<char> {
    pairing.pairing_id@ + " code="@ + pairing.code@ + " label="@ + pairing.label@ + " consumed="@ + bool_text(
        pairing.consumed,
    ) + " expires="@ + pairing.expires_at@
}

/// The line a pairing prints.
pub fn pairing_line(pairing: &PairingSummaryDto) -> (res: String)
    ensures
        res@ == pairing_text(*pairing),
{
    let mut line = pairing.pairing_id.clone();
    line.append(" code=");
    line.append(pairing.code.as_str());
    line.append(" label=");
    line.append(pairing.label.as_str());
    line.append(" consumed=");
    line.append(bool_str(pairing.consumed));
    line.append(" expires=");
    line.append(pairing.expires_at.as_str());
    line
}

/// The lines a new pairing prints.
pub fn pairing_created_lines(result: &PairingCreateResult) -> (res: Vec<String>)
    ensures
        res@.len() == 3,
        res@[0]@ == "pairing code: "@ + result.code@,
        res@[1]@ == "expires at:   "@ + result.expires_at@,
        res@[2]@ == "qr payload:   "@ + result.qr_payload@,
{
    let mut lines: Vec<String> = Vec::new();
    let mut line = owned("pairing code: ");
    line.append(result.code.as_str());
    lines.push(line);
    let mut line = owned("expires at:   ");
    line.append(result.expires_at.as_str());
    lines.push(line);
    let mut line = owned("qr payload:   ");
    line.append(result.qr_payload.as_str());
    lines.push(line);
    lines
}

/// The line a session of the diagnostics prints.
pub open spec fn diagnostics_session_text(session: SessionDiagnosticsDto) -> Seq<char> {
    "  "@ + session.session_id@ + " ["@ + session.status@ + "] agent="@ + session.agent@ + " events="@
        + spec_decimal(session.event_count as nat) + " running="@ + bool_text(session.running)
}

/// The line a log entry of the diagnostics prints.
pub open spec fn log_text(log: LogEntryDto) -> Seq<char> {
    "  "@ + log.timestamp@ + " "@ + log.level@ + " "@ + log.message@
}

/// The lines the diagnostics print: the server and protocol, the sessions,
/// one line each, and the recent log entries, one line each.
pub fn diagnostics_lines(diagnostics: &HostDiagnosticsResult) -> (res: Vec<String>)
    ensures
        ({
            let n = diagnostics.sessions@.len() as int;
            let m = diagnostics.recent_logs@.len() as int;
            &&& res@.len() == 4 + n + m
            &&& res@[0]@ == "server:      "@ + diagnostics.server_version@
            &&& res@[1]@ == "protocol:    v"@ + spec_decimal(diagnostics.protocol_version as nat)
            &&& res@[2]@ == "sessions:    "@ + spec_decimal(n as nat)
            &&& forall|i: int| 0 <= i < n ==> #[trigger] res@[3 + i]@ == diagnostics_session_text(diagnostics.sessions@[i])
            &&& res@[3 + n as int]@ == "recent logs:"@
            &&& forall|i: int| 0 <= i < m ==> #[trigger] res@[4 + n + i]@ == log_text(diagnostics.recent_logs@[i])
        }),
{
    let mut lines: Vec<String> = Vec::new();
    let mut line = owned("server:      ");
    line.append(diagnostics.server_version.as_str());
    lines.push(line);
    let mut line = owned("protocol:    v");
    line.append(decimal_u64(diagnostics.protocol_version as u64).as_str());
    lines.push(line);
    let mut line = owned("sessions:    ");
    line.append(count_text(diagnostics.sessions.len()).as_str());
    lines.push(line);
    let ghost n = diagnostics.sessions@.len();
    let ghost m = diagnostics.recent_logs@.len();
    let mut i: usize = 0;
    while i < diagnostics.sessions.len()
        invariant
            i <= n,
            n == diagnostics.sessions@.len(),
            lines@.len() == 3 + i,
            lines@[0]@ == "server:      "@ + diagnostics.server_version@,
            lines@[1]@ == "protocol:    v"@ + spec_decimal(diagnostics.protocol_version as nat),
            lines@[2]@ == "sessions:    "@ + spec_decimal(n as nat),
            forall|j: int| 0 <= j < i ==> #[trigger] lines@[3 + j]@ == diagnostics_session_text(diagnostics.sessions@[j]),
        decreases diagnostics.sessions.len() - i,
    {
        let session = &diagnostics.sessions[i];
        let mut line = owned("  ");
        line.append(session.session_id.as_str());
        line.append(" [");
        line.append(session.status.as_str());
        line.append("] agent=");
        line.append(session.agent.as_str());
        line.append(" events=");
        line.append(count_text(session.event_count).as_str());
        line.append(" running=");
        line.append(bool_str(session.running));
        lines.push(line);
        i = i + 1;
    }
    lines.push(owned("recent logs:"));
    let mut k: usize = 0;
    while k < diagnostics.recent_logs.len()
        invariant
            k <= m,
            n == diagnostics.sessions@.len(),
            m == diagnostics.recent_logs@.len(),
            lines@.len() == 4 + n + k,
            lines@[0]@ == "server:      "@ + diagnostics.server_version@,
            lines@[1]@ == "protocol:    v"@ + spec_decimal(diagnostics.protocol_version as nat),
            lines@[2]@ == "sessions:    "@ + spec_decimal(n as nat),
            forall|j: int| 0 <= j < n ==> #[trigger] lines@[3 + j]@ == diagnostics_session_text(diagnostics.sessions@[j]),
            lines@[3 + n as int]@ == "recent logs:"@,
            forall|j: int| 0 <= j < k ==> #[trigger] lines@[4 + n + j]@ == log_text(diagnostics.recent_logs@[j]),
        decreases diagnostics.recent_logs.len() - k,
    {
        let log = &diagnostics.recent_logs[k];
        let mut line = owned("  ");
        line.append(log.timestamp.as_str());
        line.append(" ");
        line.append(log.level.as_str());
        line.append(" ");
        line.append(log.message.as_str());
        lines.push(line);
        k = k + 1;
    }
    lines
}

/// The line `serve` prints once it listens on `listeners`.
pub fn listening_line(listeners: &Vec<String>, dev_mode: bool) -> (res: String)
    ensures
        res@ == "acp-host listening on "@ + joined(string_texts(listeners@), ", "@) + " (dev mode: "@ + bool_text(
            dev_mode,
        ) + ")"@,
{
    let mut line = owned("acp-host listening on ");
    line.append(join_strings(listeners, ", ").as_str());
    line.append(" (dev mode: ");
    line.append(bool_str(dev_mode));
    line.append(")");
    line
}

} // verus!
