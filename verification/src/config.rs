//! How a bundled engine is launched.
use crate::text::{decimal, decimal_text, join, law_decimal_injective};
use std::path::PathBuf;
use vstd::prelude::*;

verus! {

/// The engine's default management base URL (loopback only).
pub const DEFAULT_MGMT_BASE: &'static str = "http://127.0.0.1:8765";

/// The management port of an engine that is not told another.
pub const DEFAULT_MGMT_PORT: u16 = 8765;

/// The port that a portal agent serves on.
pub const DEFAULT_LOCAL_PORT: u16 = 8443;

/// Everything needed to launch a bundled engine. The host resolves the paths
/// (from its resources / sidecars) and the credential, then hands them off.
/// Paths that the operating system gets are paths; those that are written into
/// the argument list are the text that is written there.
#[derive(Debug)]
pub struct EngineConfig {
    /// Program to run (the bundled Node runtime, or `"node"` in dev).
    pub node_bin: PathBuf,
    /// The bundled `agent.mjs`.
    pub agent_path: PathBuf,
    /// `--mode` (usually `"portal"`).
    pub mode: String,
    /// Per-device credential (`--device-token`).
    pub device_token: String,
    /// `--relay-addr` (may be `host` or `host:port`).
    pub relay_addr: String,
    /// `--control-plane` URL.
    pub control_plane: String,
    /// `--local-port` the agent serves on (default 8443).
    pub local_port: u16,
    /// `--mgmt-secret` for the owner tier.
    pub mgmt_secret: String,
    /// `--frp-token` (omitted when empty).
    pub frp_token: Option<String>,
    /// `--frpc-bin` — the pinned sidecar's path as displayed (omitted in dev / with an override).
    pub frpc_bin: Option<String>,
    /// `--cert-mode` (`acme` in release; None keeps the agent's `static` default).
    pub cert_mode: Option<String>,
    /// `--first-party-app` — auto-approve this app's own publish (embeds only).
    pub first_party_app: Option<String>,
    /// `--engine-version` — stamp reported by `/engine/info` (from bundle.json).
    pub engine_version: Option<String>,
    /// `--work-dir` — private state dir as displayed (None = platform default).
    pub work_dir: Option<String>,
    /// `--mgmt-port` — override the default 8765 (None = default).
    pub mgmt_port: Option<u16>,
}

/// The command that launches an engine: `program agent args..`.
#[derive(Debug)]
pub struct EngineCommand<'a> {
    /// The program.
    pub program: &'a PathBuf,
    /// Its first argument.
    pub agent: &'a PathBuf,
    /// Its other arguments.
    pub args: Vec<String>,
    /// Whether standard input, standard output and standard error are all null;
    /// else all three are the launching process's own.
    pub quiet: bool,
}

/// A flag and its value.
pub type Setting = (Seq<char>, Seq<char>);

/// The texts of a list of strings.
pub open spec fn texts(strings: Seq<String>) -> Seq<Seq<char>> {
    strings.map_values(|s: String| s@)
}

/// An optional string's text.
pub open spec fn optional_text(string: Option<String>) -> Option<Seq<char>> {
    match string {
        Some(s) => Some(s@),
        None => None,
    }
}

/// An optional string's text, where an empty one counts as none.
pub open spec fn nonempty_text(string: Option<String>) -> Option<Seq<char>> {
    match string {
        Some(s) if s@.len() > 0 => Some(s@),
        _ => None,
    }
}

/// An optional port in decimal.
pub open spec fn optional_port(port: Option<u16>) -> Option<Seq<char>> {
    match port {
        Some(p) => Some(decimal(p as nat)),
        None => None,
    }
}

/// The settings of an optional flag: one where it has a value, else none.
pub open spec fn optional(flag: Seq<char>, value: Option<Seq<char>>) -> Seq<Setting> {
    match value {
        Some(v) => seq![(flag, v)],
        None => seq![],
    }
}

/// The argument list of some settings: each flag, followed by its value.
pub open spec fn flattened(settings: Seq<Setting>) -> Seq<Seq<char>> {
    Seq::new(
        2 * settings.len(),
        |i: int|
            if i % 2 == 0 {
                settings[i / 2].0
            } else {
                settings[i / 2].1
            },
    )
}

/// The value that a reader of an argument list finds for `flag`: arguments are
/// read in pairs, and the first pair that starts with `flag` decides.
pub open spec fn flag_value(args: Seq<Seq<char>>, flag: Seq<char>) -> Option<Seq<char>>
    decreases args.len(),
{
    if args.len() < 2 {
        None
    } else if args[0] == flag {
        Some(args[1])
    } else {
        flag_value(args.skip(2), flag)
    }
}

/// The management base URL on `port`.
pub open spec fn base_on(port: u16) -> Seq<char> {
    "http://127.0.0.1:"@ + decimal(port as nat)
}

impl EngineConfig {
    /// The flags that every agent gets.
    pub open spec fn required_settings(self) -> Seq<Setting> {
        seq![
            ("--mode"@, self.mode@),
            ("--device-token"@, self.device_token@),
            ("--relay-addr"@, self.relay_addr@),
            ("--control-plane"@, self.control_plane@),
            ("--local-port"@, decimal(self.local_port as nat)),
            ("--mgmt-secret"@, self.mgmt_secret@),
        ]
    }

    /// The agent's flags: those that every agent gets, then those that are set.
    pub open spec fn settings(self) -> Seq<Setting> {
        self.required_settings() + optional("--frp-token"@, nonempty_text(self.frp_token))
            + optional("--frpc-bin"@, optional_text(self.frpc_bin)) + optional(
            "--cert-mode"@,
            optional_text(self.cert_mode),
        ) + optional("--first-party-app"@, optional_text(self.first_party_app)) + optional(
            "--engine-version"@,
            optional_text(self.engine_version),
        ) + optional("--work-dir"@, optional_text(self.work_dir)) + optional(
            "--mgmt-port"@,
            optional_port(self.mgmt_port),
        )
    }

    /// The agent's argument list.
    pub open spec fn arg_list(self) -> Seq<Seq<char>> {
        flattened(self.settings())
    }

    /// Whether every optional flag is left unset.
    pub open spec fn is_bare(self) -> bool {
        &&& self.frp_token is None
        &&& self.frpc_bin is None
        &&& self.cert_mode is None
        &&& self.first_party_app is None
        &&& self.engine_version is None
        &&& self.work_dir is None
        &&& self.mgmt_port is None
    }

    /// The management base URL of this configuration's engine.
    pub open spec fn base_text(self) -> Seq<char> {
        base_on(
            match self.mgmt_port {
                Some(port) => port,
                None => DEFAULT_MGMT_PORT,
            },
        )
    }

    /// A minimal portal-mode config; fill in the optionals as needed.
    pub fn portal(
        node_bin: PathBuf,
        agent_path: PathBuf,
        device_token: String,
        relay_addr: String,
        control_plane: String,
        mgmt_secret: String,
    ) -> (config: Self)
        ensures
            config.node_bin == node_bin,
            config.agent_path == agent_path,
            config.mode@ == "portal"@,
            config.device_token == device_token,
            config.relay_addr == relay_addr,
            config.control_plane == control_plane,
            config.local_port == 8443,
            config.mgmt_secret == mgmt_secret,
            config.is_bare(),
            config.frp_token is None,
            config.frpc_bin is None,
            config.cert_mode is None,
            config.first_party_app is None,
            config.engine_version is None,
            config.work_dir is None,
            config.mgmt_port is None,
    {
        EngineConfig {
            node_bin,
            agent_path,
            mode: "portal".to_owned(),
            device_token,
            relay_addr,
            control_plane,
            local_port: DEFAULT_LOCAL_PORT,
            mgmt_secret,
            frp_token: None,
            frpc_bin: None,
            cert_mode: None,
            first_party_app: None,
            engine_version: None,
            work_dir: None,
            mgmt_port: None,
        }
    }

    /// Build the agent argument vector (everything after the program + agent.mjs).
    /// Optional flags are emitted only when set, so a bare config produces exactly
    /// the flags a plain portal agent needs.
    pub fn to_args(&self) -> (args: Vec<String>)
        ensures
            texts(args@) == self.arg_list(),
    {
        let mut args: Vec<String> = Vec::new();
        let local_port = decimal_text(self.local_port as u64);
        let ghost r = self.required_settings();
        assert(texts(args@) =~= flattened(r.take(0)));
        push_setting(&mut args, "--mode", self.mode.as_str(), Ghost(r.take(0)));
        assert(r.take(1) =~= r.take(0).push(r[0]));
        push_setting(&mut args, "--device-token", self.device_token.as_str(), Ghost(r.take(1)));
        assert(r.take(2) =~= r.take(1).push(r[1]));
        push_setting(&mut args, "--relay-addr", self.relay_addr.as_str(), Ghost(r.take(2)));
        assert(r.take(3) =~= r.take(2).push(r[2]));
        push_setting(&mut args, "--control-plane", self.control_plane.as_str(), Ghost(r.take(3)));
        assert(r.take(4) =~= r.take(3).push(r[3]));
        push_setting(&mut args, "--local-port", local_port.as_str(), Ghost(r.take(4)));
        assert(r.take(5) =~= r.take(4).push(r[4]));
        push_setting(&mut args, "--mgmt-secret", self.mgmt_secret.as_str(), Ghost(r.take(5)));
        assert(r.take(6) =~= r.take(5).push(r[5]));
        assert(r.take(6) =~= r);
        let ghost s = r + optional("--frp-token"@, nonempty_text(self.frp_token));
        match &self.frp_token {
            Some(frp_token) if !frp_token.as_str().is_empty() => {
                push_setting(&mut args, "--frp-token", frp_token.as_str(), Ghost(r));
                assert(s =~= r.push(("--frp-token"@, frp_token@)));
            },
            _ => {
                assert(s =~= r);
            },
        }
        push_optional(&mut args, "--frpc-bin", &self.frpc_bin, Ghost(s));
        let ghost s = s + optional("--frpc-bin"@, optional_text(self.frpc_bin));
        push_optional(&mut args, "--cert-mode", &self.cert_mode, Ghost(s));
        let ghost s = s + optional("--cert-mode"@, optional_text(self.cert_mode));
        push_optional(&mut args, "--first-party-app", &self.first_party_app, Ghost(s));
        let ghost s = s + optional("--first-party-app"@, optional_text(self.first_party_app));
        push_optional(&mut args, "--engine-version", &self.engine_version, Ghost(s));
        let ghost s = s + optional("--engine-version"@, optional_text(self.engine_version));
        push_optional(&mut args, "--work-dir", &self.work_dir, Ghost(s));
        let ghost s = s + optional("--work-dir"@, optional_text(self.work_dir));
        let mgmt_port: Option<String> = match self.mgmt_port {
            Some(port) => Some(decimal_text(port as u64)),
            None => None,
        };
        push_optional(&mut args, "--mgmt-port", &mgmt_port, Ghost(s));
        args
    }

    /// The command that runs the engine (program + agent.mjs + args), with the
    /// launching process's own standard streams.
    pub fn command(&self) -> (command: EngineCommand<'_>)
        ensures
            *command.program == self.node_bin,
            *command.agent == self.agent_path,
            texts(command.args@) == self.arg_list(),
            !command.quiet,
    {
        EngineCommand {
            program: &self.node_bin,
            agent: &self.agent_path,
            args: self.to_args(),
            quiet: false,
        }
    }

    /// The command that starts the engine in the background: [`Self::command`]
    /// with null stdio.
    pub fn spawn(&self) -> (command: EngineCommand<'_>)
        ensures
            *command.program == self.node_bin,
            *command.agent == self.agent_path,
            texts(command.args@) == self.arg_list(),
            command.quiet,
    {
        let mut command = self.command();
        command.quiet = true;
        command
    }

    /// The management base URL this config's engine will listen on.
    pub fn mgmt_base(&self) -> (base: String)
        ensures
            base@ == self.base_text(),
    {
        let port: u16 = self.mgmt_port.unwrap_or(DEFAULT_MGMT_PORT);
        join("http://127.0.0.1:", decimal_text(port as u64).as_str())
    }
}

impl Clone for EngineConfig {
    fn clone(&self) -> (copy: Self)
        ensures
            copy == *self,
    {
        EngineConfig {
            node_bin: self.node_bin.clone(),
            agent_path: self.agent_path.clone(),
            mode: self.mode.clone(),
            device_token: self.device_token.clone(),
            relay_addr: self.relay_addr.clone(),
            control_plane: self.control_plane.clone(),
            local_port: self.local_port,
            mgmt_secret: self.mgmt_secret.clone(),
            frp_token: self.frp_token.clone(),
            frpc_bin: self.frpc_bin.clone(),
            cert_mode: self.cert_mode.clone(),
            first_party_app: self.first_party_app.clone(),
            engine_version: self.engine_version.clone(),
            work_dir: self.work_dir.clone(),
            mgmt_port: self.mgmt_port,
        }
    }
}

/// Appends a flag and its value to an argument list that holds `settings`.
fn push_setting(args: &mut Vec<String>, flag: &str, value: &str, settings: Ghost<Seq<Setting>>)
    requires
        texts(old(args)@) == flattened(settings@),
    ensures
        texts(final(args)@) == flattened(settings@.push((flag@, value@))),
{
    args.push(flag.to_owned());
    args.push(value.to_owned());
    assert(texts(args@) =~= texts(old(args)@).push(flag@).push(value@));
    assert(texts(args@) =~= flattened(settings@.push((flag@, value@))));
}

/// Appends a flag and its value, where there is one, to an argument list that
/// holds `settings`.
fn push_optional(
    args: &mut Vec<String>,
    flag: &str,
    value: &Option<String>,
    settings: Ghost<Seq<Setting>>,
)
    requires
        texts(old(args)@) == flattened(settings@),
    ensures
        texts(final(args)@) == flattened(settings@ + optional(flag@, optional_text(*value))),
{
    if let Some(value) = value {
        push_setting(args, flag, value.as_str(), settings);
        assert(settings@ + seq![(flag@, value@)] =~= settings@.push((flag@, value@)));
    } else {
        assert(settings@ + Seq::<Setting>::empty() =~= settings@);
    }
}

/// The place of a flag in the order in which an argument list gives the flags.
#[verifier::opaque]
pub open spec fn flag_rank(flag: Seq<char>) -> int {
    if flag == "--mode"@ {
        0
    } else if flag == "--device-token"@ {
        1
    } else if flag == "--relay-addr"@ {
        2
    } else if flag == "--control-plane"@ {
        3
    } else if flag == "--local-port"@ {
        4
    } else if flag == "--mgmt-secret"@ {
        5
    } else if flag == "--frp-token"@ {
        6
    } else if flag == "--frpc-bin"@ {
        7
    } else if flag == "--cert-mode"@ {
        8
    } else if flag == "--first-party-app"@ {
        9
    } else if flag == "--engine-version"@ {
        10
    } else if flag == "--work-dir"@ {
        11
    } else if flag == "--mgmt-port"@ {
        12
    } else {
        13
    }
}

proof fn lemma_flag_ranks()
    ensures
        flag_rank("--mode"@) == 0,
        flag_rank("--device-token"@) == 1,
        flag_rank("--relay-addr"@) == 2,
        flag_rank("--control-plane"@) == 3,
        flag_rank("--local-port"@) == 4,
        flag_rank("--mgmt-secret"@) == 5,
        flag_rank("--frp-token"@) == 6,
        flag_rank("--frpc-bin"@) == 7,
        flag_rank("--cert-mode"@) == 8,
        flag_rank("--first-party-app"@) == 9,
        flag_rank("--engine-version"@) == 10,
        flag_rank("--work-dir"@) == 11,
        flag_rank("--mgmt-port"@) == 12,
{
    reveal(flag_rank);
    reveal_strlit("--mode");
    reveal_strlit("--device-token");
    reveal_strlit("--relay-addr");
    reveal_strlit("--control-plane");
    reveal_strlit("--local-port");
    reveal_strlit("--mgmt-secret");
    reveal_strlit("--frp-token");
    reveal_strlit("--frpc-bin");
    reveal_strlit("--cert-mode");
    reveal_strlit("--first-party-app");
    reveal_strlit("--engine-version");
    reveal_strlit("--work-dir");
    reveal_strlit("--mgmt-port");
    assert("--mode"@.len() == 6);
    assert("--device-token"@.len() == 14);
    assert("--relay-addr"@.len() == 12);
    assert("--control-plane"@.len() == 15);
    assert("--local-port"@.len() == 12);
    assert("--mgmt-secret"@.len() == 13);
    assert("--frp-token"@.len() == 11);
    assert("--frpc-bin"@.len() == 10);
    assert("--cert-mode"@.len() == 11);
    assert("--first-party-app"@.len() == 17);
    assert("--engine-version"@.len() == 16);
    assert("--work-dir"@.len() == 10);
    assert("--mgmt-port"@.len() == 11);
    assert("--relay-addr"@[2] != "--local-port"@[2]);
    assert("--frp-token"@[2] != "--cert-mode"@[2]);
    assert("--frp-token"@[2] != "--mgmt-port"@[2]);
    assert("--frpc-bin"@[2] != "--work-dir"@[2]);
    assert("--cert-mode"@[2] != "--mgmt-port"@[2]);
}

/// Whether the flags of `settings` stand in order and all before place `end`.
spec fn in_order(settings: Seq<Setting>, end: int) -> bool {
    &&& forall|i: int, j: int|
        0 <= i < j < settings.len() ==> flag_rank(#[trigger] settings[i].0) < flag_rank(
            #[trigger] settings[j].0,
        )
    &&& forall|i: int| 0 <= i < settings.len() ==> flag_rank(#[trigger] settings[i].0) < end
}

proof fn lemma_in_order_optional(
    settings: Seq<Setting>,
    end: int,
    flag: Seq<char>,
    value: Option<Seq<char>>,
)
    requires
        in_order(settings, end),
        flag_rank(flag) == end,
    ensures
        in_order(settings + optional(flag, value), end + 1),
{
}

proof fn lemma_settings_in_order(config: EngineConfig)
    ensures
        in_order(config.settings(), 13),
{
    lemma_flag_ranks();
    let s = config.required_settings();
    assert(in_order(s, 6));
    lemma_in_order_optional(s, 6, "--frp-token"@, nonempty_text(config.frp_token));
    let s = s + optional("--frp-token"@, nonempty_text(config.frp_token));
    lemma_in_order_optional(s, 7, "--frpc-bin"@, optional_text(config.frpc_bin));
    let s = s + optional("--frpc-bin"@, optional_text(config.frpc_bin));
    lemma_in_order_optional(s, 8, "--cert-mode"@, optional_text(config.cert_mode));
    let s = s + optional("--cert-mode"@, optional_text(config.cert_mode));
    lemma_in_order_optional(s, 9, "--first-party-app"@, optional_text(config.first_party_app));
    let s = s + optional("--first-party-app"@, optional_text(config.first_party_app));
    lemma_in_order_optional(s, 10, "--engine-version"@, optional_text(config.engine_version));
    let s = s + optional("--engine-version"@, optional_text(config.engine_version));
    lemma_in_order_optional(s, 11, "--work-dir"@, optional_text(config.work_dir));
    let s = s + optional("--work-dir"@, optional_text(config.work_dir));
    lemma_in_order_optional(s, 12, "--mgmt-port"@, optional_port(config.mgmt_port));
    let s = s + optional("--mgmt-port"@, optional_port(config.mgmt_port));
    assert(s == config.settings());
}

/// An argument list pairs every flag with one value, gives no flag twice, and
/// gives the flags in one order, whatever is set.
pub proof fn law_flags_once_and_in_order(config: EngineConfig)
    ensures
        config.arg_list().len() == 2 * config.settings().len(),
        forall|i: int, j: int|
            0 <= i < j < config.settings().len() ==> flag_rank(
                #[trigger] config.arg_list()[2 * i],
            ) < flag_rank(#[trigger] config.arg_list()[2 * j]),
{
    lemma_settings_in_order(config);
    let s = config.settings();
    assert forall|i: int, j: int| 0 <= i < j < s.len() implies flag_rank(
        #[trigger] config.arg_list()[2 * i],
    ) < flag_rank(#[trigger] config.arg_list()[2 * j]) by {
        assert(config.arg_list()[2 * i] == s[i].0);
        assert(config.arg_list()[2 * j] == s[j].0);
    }
}

/// A configuration without optional settings gives exactly the flags of a plain
/// agent.
pub proof fn law_bare_args(config: EngineConfig)
    requires
        config.is_bare(),
    ensures
        config.arg_list() == seq![
            "--mode"@,
            config.mode@,
            "--device-token"@,
            config.device_token@,
            "--relay-addr"@,
            config.relay_addr@,
            "--control-plane"@,
            config.control_plane@,
            "--local-port"@,
            decimal(config.local_port as nat),
            "--mgmt-secret"@,
            config.mgmt_secret@,
        ],
{
    assert(config.settings() =~= config.required_settings());
}

/// The value of the first setting for `flag`.
#[verifier::opaque]
spec fn setting_of(settings: Seq<Setting>, flag: Seq<char>) -> Option<Seq<char>>
    decreases settings.len(),
{
    if settings.len() == 0 {
        None
    } else if settings[0].0 == flag {
        Some(settings[0].1)
    } else {
        setting_of(settings.skip(1), flag)
    }
}

proof fn lemma_flag_value_of_flattened(settings: Seq<Setting>, flag: Seq<char>)
    ensures
        flag_value(flattened(settings), flag) == setting_of(settings, flag),
    decreases settings.len(),
{
    reveal(setting_of);
    if settings.len() > 0 {
        assert(flattened(settings).skip(2) =~= flattened(settings.skip(1)));
        lemma_flag_value_of_flattened(settings.skip(1), flag);
    }
}

proof fn lemma_setting_of_optional(
    settings: Seq<Setting>,
    other: Seq<char>,
    value: Option<Seq<char>>,
    flag: Seq<char>,
)
    ensures
        setting_of(settings + optional(other, value), flag) == if setting_of(
            settings,
            flag,
        ) is Some {
            setting_of(settings, flag)
        } else if other == flag {
            value
        } else {
            None
        },
    decreases settings.len(),
{
    reveal(setting_of);
    let all = settings + optional(other, value);
    if settings.len() > 0 {
        assert(all.skip(1) =~= settings.skip(1) + optional(other, value));
        lemma_setting_of_optional(settings.skip(1), other, value, flag);
    } else if value is Some {
        assert(setting_of(all.skip(1), flag) is None);
    }
}

proof fn lemma_setting_of_required(config: EngineConfig, flag: Seq<char>)
    ensures
        setting_of(config.required_settings(), flag) == (if flag == "--mode"@ {
            Some(config.mode@)
        } else if flag == "--device-token"@ {
            Some(config.device_token@)
        } else if flag == "--relay-addr"@ {
            Some(config.relay_addr@)
        } else if flag == "--control-plane"@ {
            Some(config.control_plane@)
        } else if flag == "--local-port"@ {
            Some(decimal(config.local_port as nat))
        } else if flag == "--mgmt-secret"@ {
            Some(config.mgmt_secret@)
        } else {
            None
        }),
{
    reveal_with_fuel(setting_of, 7);
}

proof fn lemma_setting_of_config(config: EngineConfig, flag: Seq<char>)
    ensures
        setting_of(config.settings(), flag) == (if flag == "--mode"@ {
            Some(config.mode@)
        } else if flag == "--device-token"@ {
            Some(config.device_token@)
        } else if flag == "--relay-addr"@ {
            Some(config.relay_addr@)
        } else if flag == "--control-plane"@ {
            Some(config.control_plane@)
        } else if flag == "--local-port"@ {
            Some(decimal(config.local_port as nat))
        } else if flag == "--mgmt-secret"@ {
            Some(config.mgmt_secret@)
        } else if flag == "--frp-token"@ {
            nonempty_text(config.frp_token)
        } else if flag == "--frpc-bin"@ {
            optional_text(config.frpc_bin)
        } else if flag == "--cert-mode"@ {
            optional_text(config.cert_mode)
        } else if flag == "--first-party-app"@ {
            optional_text(config.first_party_app)
        } else if flag == "--engine-version"@ {
            optional_text(config.engine_version)
        } else if flag == "--work-dir"@ {
            optional_text(config.work_dir)
        } else if flag == "--mgmt-port"@ {
            optional_port(config.mgmt_port)
        } else {
            None
        }),
{
    lemma_flag_ranks();
    lemma_setting_of_required(config, flag);
    let s = config.required_settings();
    lemma_setting_of_optional(s, "--frp-token"@, nonempty_text(config.frp_token), flag);
    let s = s + optional("--frp-token"@, nonempty_text(config.frp_token));
    lemma_setting_of_optional(s, "--frpc-bin"@, optional_text(config.frpc_bin), flag);
    let s = s + optional("--frpc-bin"@, optional_text(config.frpc_bin));
    lemma_setting_of_optional(s, "--cert-mode"@, optional_text(config.cert_mode), flag);
    let s = s + optional("--cert-mode"@, optional_text(config.cert_mode));
    lemma_setting_of_optional(s, "--first-party-app"@, optional_text(config.first_party_app), flag);
    let s = s + optional("--first-party-app"@, optional_text(config.first_party_app));
    lemma_setting_of_optional(s, "--engine-version"@, optional_text(config.engine_version), flag);
    let s = s + optional("--engine-version"@, optional_text(config.engine_version));
    lemma_setting_of_optional(s, "--work-dir"@, optional_text(config.work_dir), flag);
    let s = s + optional("--work-dir"@, optional_text(config.work_dir));
    lemma_setting_of_optional(s, "--mgmt-port"@, optional_port(config.mgmt_port), flag);
    let s = s + optional("--mgmt-port"@, optional_port(config.mgmt_port));
    assert(s == config.settings());
}

/// A reader of the argument list finds for each flag the value that the
/// configuration sets, and for an optional flag that is not set (or for an empty
/// `--frp-token`) none.
pub proof fn law_flag_values(config: EngineConfig)
    ensures
        flag_value(config.arg_list(), "--mode"@) == Some(config.mode@),
        flag_value(config.arg_list(), "--device-token"@) == Some(config.device_token@),
        flag_value(config.arg_list(), "--relay-addr"@) == Some(config.relay_addr@),
        flag_value(config.arg_list(), "--control-plane"@) == Some(config.control_plane@),
        flag_value(config.arg_list(), "--local-port"@) == Some(decimal(config.local_port as nat)),
        flag_value(config.arg_list(), "--mgmt-secret"@) == Some(config.mgmt_secret@),
        flag_value(config.arg_list(), "--frp-token"@) == nonempty_text(config.frp_token),
        flag_value(config.arg_list(), "--frpc-bin"@) == optional_text(config.frpc_bin),
        flag_value(config.arg_list(), "--cert-mode"@) == optional_text(config.cert_mode),
        flag_value(config.arg_list(), "--first-party-app"@) == optional_text(config.first_party_app),
        flag_value(config.arg_list(), "--engine-version"@) == optional_text(config.engine_version),
        flag_value(config.arg_list(), "--work-dir"@) == optional_text(config.work_dir),
        flag_value(config.arg_list(), "--mgmt-port"@) == optional_port(config.mgmt_port),
        config.frp_token matches Some(token) && token@.len() > 0 ==> flag_value(
            config.arg_list(),
            "--frp-token"@,
        ) == Some(config.frp_token->0@),
        config.frp_token matches Some(token) && token@.len() == 0 ==> flag_value(
            config.arg_list(),
            "--frp-token"@,
        ) is None,
        config.frp_token is None ==> flag_value(config.arg_list(), "--frp-token"@) is None,
        config.frpc_bin matches Some(value) ==> flag_value(config.arg_list(), "--frpc-bin"@)
            == Some(value@),
        config.frpc_bin is None ==> flag_value(config.arg_list(), "--frpc-bin"@) is None,
        config.cert_mode matches Some(value) ==> flag_value(config.arg_list(), "--cert-mode"@)
            == Some(value@),
        config.cert_mode is None ==> flag_value(config.arg_list(), "--cert-mode"@) is None,
        config.first_party_app matches Some(value) ==> flag_value(
            config.arg_list(),
            "--first-party-app"@,
        ) == Some(value@),
        config.first_party_app is None ==> flag_value(
            config.arg_list(),
            "--first-party-app"@,
        ) is None,
        config.engine_version matches Some(value) ==> flag_value(
            config.arg_list(),
            "--engine-version"@,
        ) == Some(value@),
        config.engine_version is None ==> flag_value(
            config.arg_list(),
            "--engine-version"@,
        ) is None,
        config.work_dir matches Some(value) ==> flag_value(config.arg_list(), "--work-dir"@)
            == Some(value@),
        config.work_dir is None ==> flag_value(config.arg_list(), "--work-dir"@) is None,
        config.mgmt_port matches Some(port) ==> flag_value(config.arg_list(), "--mgmt-port"@)
            == Some(decimal(port as nat)),
        config.mgmt_port is None ==> flag_value(config.arg_list(), "--mgmt-port"@) is None,
{
    lemma_flag_ranks();
    lemma_flag_value_of_flattened(config.settings(), "--mode"@);
    lemma_setting_of_config(config, "--mode"@);
    lemma_flag_value_of_flattened(config.settings(), "--device-token"@);
    lemma_setting_of_config(config, "--device-token"@);
    lemma_flag_value_of_flattened(config.settings(), "--relay-addr"@);
    lemma_setting_of_config(config, "--relay-addr"@);
    lemma_flag_value_of_flattened(config.settings(), "--control-plane"@);
    lemma_setting_of_config(config, "--control-plane"@);
    lemma_flag_value_of_flattened(config.settings(), "--local-port"@);
    lemma_setting_of_config(config, "--local-port"@);
    lemma_flag_value_of_flattened(config.settings(), "--mgmt-secret"@);
    lemma_setting_of_config(config, "--mgmt-secret"@);
    lemma_flag_value_of_flattened(config.settings(), "--frp-token"@);
    lemma_setting_of_config(config, "--frp-token"@);
    lemma_flag_value_of_flattened(config.settings(), "--frpc-bin"@);
    lemma_setting_of_config(config, "--frpc-bin"@);
    lemma_flag_value_of_flattened(config.settings(), "--cert-mode"@);
    lemma_setting_of_config(config, "--cert-mode"@);
    lemma_flag_value_of_flattened(config.settings(), "--first-party-app"@);
    lemma_setting_of_config(config, "--first-party-app"@);
    lemma_flag_value_of_flattened(config.settings(), "--engine-version"@);
    lemma_setting_of_config(config, "--engine-version"@);
    lemma_flag_value_of_flattened(config.settings(), "--work-dir"@);
    lemma_setting_of_config(config, "--work-dir"@);
    lemma_flag_value_of_flattened(config.settings(), "--mgmt-port"@);
    lemma_setting_of_config(config, "--mgmt-port"@);
}

/// A reader of the argument list finds no flag but the configuration's own.
pub proof fn law_no_other_flags(config: EngineConfig, flag: Seq<char>)
    requires
        flag_rank(flag) == 13,
    ensures
        flag_value(config.arg_list(), flag) is None,
{
    lemma_flag_ranks();
    lemma_flag_value_of_flattened(config.settings(), flag);
    lemma_setting_of_config(config, flag);
}

/// Two configurations with one argument list set the same values.
pub proof fn law_args_determine_settings(a: EngineConfig, b: EngineConfig)
    requires
        a.arg_list() == b.arg_list(),
    ensures
        a.mode@ == b.mode@,
        a.device_token@ == b.device_token@,
        a.relay_addr@ == b.relay_addr@,
        a.control_plane@ == b.control_plane@,
        a.local_port == b.local_port,
        a.mgmt_secret@ == b.mgmt_secret@,
        nonempty_text(a.frp_token) == nonempty_text(b.frp_token),
        optional_text(a.frpc_bin) == optional_text(b.frpc_bin),
        optional_text(a.cert_mode) == optional_text(b.cert_mode),
        optional_text(a.first_party_app) == optional_text(b.first_party_app),
        optional_text(a.engine_version) == optional_text(b.engine_version),
        optional_text(a.work_dir) == optional_text(b.work_dir),
        a.mgmt_port == b.mgmt_port,
        (a.frp_token matches Some(token) && token@.len() > 0) <==> (b.frp_token matches Some(token)
            && token@.len() > 0),
        a.frp_token matches Some(token) && token@.len() > 0 ==> a.frp_token->0@
            == b.frp_token->0@,
        a.frpc_bin is Some <==> b.frpc_bin is Some,
        a.frpc_bin is Some ==> a.frpc_bin->0@ == b.frpc_bin->0@,
        a.cert_mode is Some <==> b.cert_mode is Some,
        a.cert_mode is Some ==> a.cert_mode->0@ == b.cert_mode->0@,
        a.first_party_app is Some <==> b.first_party_app is Some,
        a.first_party_app is Some ==> a.first_party_app->0@ == b.first_party_app->0@,
        a.engine_version is Some <==> b.engine_version is Some,
        a.engine_version is Some ==> a.engine_version->0@ == b.engine_version->0@,
        a.work_dir is Some <==> b.work_dir is Some,
        a.work_dir is Some ==> a.work_dir->0@ == b.work_dir->0@,
{
    law_flag_values(a);
    law_flag_values(b);
    law_decimal_injective(a.local_port as nat, b.local_port as nat);
    if a.mgmt_port is Some && b.mgmt_port is Some {
        law_decimal_injective(a.mgmt_port->0 as nat, b.mgmt_port->0 as nat);
    }
}

/// An empty `--frp-token` counts as none.
pub proof fn law_empty_frp_token_is_none(config: EngineConfig)
    requires
        config.frp_token matches Some(token) && token@.len() == 0,
    ensures
        config.arg_list() == (EngineConfig { frp_token: None, ..config }).arg_list(),
{
}

/// The engine of a configuration that names no port is the one at the default
/// address.
pub proof fn law_default_base(config: EngineConfig)
    requires
        config.mgmt_port is None,
    ensures
        config.base_text() == DEFAULT_MGMT_BASE@,
        DEFAULT_MGMT_BASE@ == "http://127.0.0.1:8765"@,
{
    reveal_with_fuel(decimal, 5);
    reveal_strlit("http://127.0.0.1:");
    reveal_strlit("http://127.0.0.1:8765");
    assert(config.base_text() =~= DEFAULT_MGMT_BASE@);
}

/// Engines on different ports have different base URLs.
pub proof fn law_base_names_port(a: u16, b: u16)
    requires
        base_on(a) == base_on(b),
    ensures
        a == b,
{
    let scheme = "http://127.0.0.1:"@;
    assert(base_on(a).skip(scheme.len() as int) =~= decimal(a as nat));
    assert(base_on(b).skip(scheme.len() as int) =~= decimal(b as nat));
    law_decimal_injective(a as nat, b as nat);
}

proof fn lemma_flattened_optional(settings: Seq<Setting>, flag: Seq<char>, value: Option<Seq<char>>)
    ensures
        flattened(settings + optional(flag, value)) == flattened(settings) + match value {
            Some(v) => seq![flag, v],
            None => seq![],
        },
{
    assert(flattened(settings + optional(flag, value)) =~= flattened(settings) + match value {
        Some(v) => seq![flag, v],
        None => seq![],
    });
}

/// The argument list holds the six flags that every agent gets, each followed by
/// its value, and then each optional flag that is set, followed by its value: the
/// whole text of it, as the configuration has it. An empty `--frp-token` counts as
/// not set. There is nothing else in it.
pub proof fn law_args_hold_the_settings(config: EngineConfig)
    ensures
        config.arg_list() == seq![
            "--mode"@,
            config.mode@,
            "--device-token"@,
            config.device_token@,
            "--relay-addr"@,
            config.relay_addr@,
            "--control-plane"@,
            config.control_plane@,
            "--local-port"@,
            decimal(config.local_port as nat),
            "--mgmt-secret"@,
            config.mgmt_secret@,
        ] + (match config.frp_token {
            Some(token) if token@.len() > 0 => seq!["--frp-token"@, token@],
            _ => seq![],
        }) + (match config.frpc_bin {
            Some(value) => seq!["--frpc-bin"@, value@],
            None => seq![],
        }) + (match config.cert_mode {
            Some(value) => seq!["--cert-mode"@, value@],
            None => seq![],
        }) + (match config.first_party_app {
            Some(value) => seq!["--first-party-app"@, value@],
            None => seq![],
        }) + (match config.engine_version {
            Some(value) => seq!["--engine-version"@, value@],
            None => seq![],
        }) + (match config.work_dir {
            Some(value) => seq!["--work-dir"@, value@],
            None => seq![],
        }) + (match config.mgmt_port {
            Some(port) => seq!["--mgmt-port"@, decimal(port as nat)],
            None => seq![],
        }),
{
    let s = config.required_settings();
    assert(flattened(s) =~= seq![
        "--mode"@,
        config.mode@,
        "--device-token"@,
        config.device_token@,
        "--relay-addr"@,
        config.relay_addr@,
        "--control-plane"@,
        config.control_plane@,
        "--local-port"@,
        decimal(config.local_port as nat),
        "--mgmt-secret"@,
        config.mgmt_secret@,
    ]);
    lemma_flattened_optional(s, "--frp-token"@, nonempty_text(config.frp_token));
    let s = s + optional("--frp-token"@, nonempty_text(config.frp_token));
    lemma_flattened_optional(s, "--frpc-bin"@, optional_text(config.frpc_bin));
    let s = s + optional("--frpc-bin"@, optional_text(config.frpc_bin));
    lemma_flattened_optional(s, "--cert-mode"@, optional_text(config.cert_mode));
    let s = s + optional("--cert-mode"@, optional_text(config.cert_mode));
    lemma_flattened_optional(s, "--first-party-app"@, optional_text(config.first_party_app));
    let s = s + optional("--first-party-app"@, optional_text(config.first_party_app));
    lemma_flattened_optional(s, "--engine-version"@, optional_text(config.engine_version));
    let s = s + optional("--engine-version"@, optional_text(config.engine_version));
    lemma_flattened_optional(s, "--work-dir"@, optional_text(config.work_dir));
    let s = s + optional("--work-dir"@, optional_text(config.work_dir));
    lemma_flattened_optional(s, "--mgmt-port"@, optional_port(config.mgmt_port));
}

/// The arguments that an agent gets are those of its configuration's argument
/// list, one string for each, character by character.
pub proof fn law_to_args(config: &EngineConfig, args: Vec<String>)
    requires
        call_ensures(EngineConfig::to_args, (config,), args),
    ensures
        args@.len() == config.arg_list().len(),
        forall|i: int| 0 <= i < args@.len() ==> #[trigger] args@[i]@ == config.arg_list()[i],
{
    assert forall|i: int| 0 <= i < args@.len() implies #[trigger] args@[i]@
        == config.arg_list()[i] by {
        assert(texts(args@)[i] == args@[i]@);
    }
}

/// The command runs the configuration's program on its agent, in this order, with
/// the arguments of its argument list, and leaves the standard streams alone.
pub proof fn law_command<'a>(config: &'a EngineConfig, command: EngineCommand<'a>)
    requires
        call_ensures(EngineConfig::command, (config,), command),
    ensures
        *command.program == config.node_bin,
        *command.agent == config.agent_path,
        command.args@.len() == config.arg_list().len(),
        forall|i: int|
            0 <= i < command.args@.len() ==> #[trigger] command.args@[i]@ == config.arg_list()[i],
        !command.quiet,
{
    assert forall|i: int| 0 <= i < command.args@.len() implies #[trigger] command.args@[i]@
        == config.arg_list()[i] by {
        assert(texts(command.args@)[i] == command.args@[i]@);
    }
}

/// Starting an engine in the background runs what the command runs, and differs
/// from it in nothing but its null streams.
pub proof fn law_spawn_is_the_quiet_command<'a>(
    config: &'a EngineConfig,
    command: EngineCommand<'a>,
    spawn: EngineCommand<'a>,
)
    requires
        call_ensures(EngineConfig::command, (config,), command),
        call_ensures(EngineConfig::spawn, (config,), spawn),
    ensures
        *spawn.program == *command.program,
        *spawn.agent == *command.agent,
        spawn.args@.len() == command.args@.len(),
        forall|i: int|
            0 <= i < spawn.args@.len() ==> #[trigger] spawn.args@[i]@ == command.args@[i]@,
        spawn.quiet,
        !command.quiet,
{
    law_command(config, command);
    assert forall|i: int| 0 <= i < spawn.args@.len() implies #[trigger] spawn.args@[i]@
        == command.args@[i]@ by {
        assert(texts(spawn.args@)[i] == spawn.args@[i]@);
    }
}

/// A portal configuration holds what it was made of, each thing in its own place,
/// serves on port 8443, and sets nothing optional.
pub proof fn law_portal(
    node_bin: PathBuf,
    agent_path: PathBuf,
    device_token: String,
    relay_addr: String,
    control_plane: String,
    mgmt_secret: String,
    config: EngineConfig,
)
    requires
        call_ensures(
            EngineConfig::portal,
            (node_bin, agent_path, device_token, relay_addr, control_plane, mgmt_secret),
            config,
        ),
    ensures
        config.node_bin == node_bin,
        config.agent_path == agent_path,
        config.mode@ == "portal"@,
        config.device_token == device_token,
        config.relay_addr == relay_addr,
        config.control_plane == control_plane,
        config.local_port == 8443,
        config.mgmt_secret == mgmt_secret,
        config.frp_token is None,
        config.frpc_bin is None,
        config.cert_mode is None,
        config.first_party_app is None,
        config.engine_version is None,
        config.work_dir is None,
        config.mgmt_port is None,
{
}

/// An engine's management address is on this machine, at the port that its
/// configuration names, or at 8765 where it names none.
pub proof fn law_mgmt_base(config: &EngineConfig, base: String)
    requires
        call_ensures(EngineConfig::mgmt_base, (config,), base),
    ensures
        config.mgmt_port matches Some(port) ==> base@ == "http://127.0.0.1:"@ + decimal(
            port as nat,
        ),
        config.mgmt_port is None ==> base@ == "http://127.0.0.1:"@ + decimal(8765),
        config.base_text() == base@,
{
}

/// The management address of a configuration depends on its port alone.
pub proof fn law_base_text(config: EngineConfig)
    ensures
        config.mgmt_port matches Some(port) ==> config.base_text() == "http://127.0.0.1:"@
            + decimal(port as nat),
        config.mgmt_port is None ==> config.base_text() == "http://127.0.0.1:"@ + decimal(8765),
{
}

/// A copy of a configuration is that configuration.
pub proof fn law_clone(config: &EngineConfig, copy: EngineConfig)
    requires
        call_ensures(<EngineConfig as Clone>::clone, (config,), copy),
    ensures
        copy == *config,
{
}


} // verus!
