//! The command lines that the other daemons are launched with.

use crate::addr::{IpAddr, NodeAddr};
use crate::chain::{Chain, Coin};
use crate::config::Config;
use crate::ident::{self, SecretKey, SwapId};
use crate::offer::TradeRole;
use crate::rpc::Error;
use crate::text::{self, decimal_text};
use vstd::prelude::*;
use vstd::string::StringExecFns;

verus! {

/// A daemon that runs as a process of its own.
#[derive(Clone, Copy, PartialEq, Eq, Structural, Debug, Hash)]
pub enum Daemon {
    Walletd,
    Peerd,
    Syncerd,
    Swapd,
}

/// A daemon to launch, with the arguments that are for it alone.
#[derive(PartialEq, Eq, Debug)]
pub struct Task {
    pub daemon: Daemon,
    pub args: Vec<String>,
}

/// The options that are handed on to every daemon that is launched.
#[derive(PartialEq, Eq, Debug)]
pub struct SharedOpts {
    /// How often more output was asked for.
    pub verbose: u64,
    pub data_dir: Option<String>,
    pub msg_socket: Option<String>,
    pub ctl_socket: Option<String>,
    /// Asked for at all, and then with an address or without.
    pub tor_proxy: Option<Option<String>>,
}

/// A program beside this one, and all its arguments.
#[derive(PartialEq, Eq, Debug)]
pub struct Invocation {
    pub program: String,
    pub args: Vec<String>,
}

impl Daemon {
    /// The name of the daemon's program.
    pub open spec fn spelled(self) -> Seq<char> {
        match self {
            Daemon::Walletd => "walletd"@,
            Daemon::Peerd => "peerd"@,
            Daemon::Syncerd => "syncerd"@,
            Daemon::Swapd => "swapd"@,
        }
    }

    /// The name of the daemon's program.
    pub fn name(self) -> (s: &'static str)
        ensures
            s@ == self.spelled(),
    {
        match self {
            Daemon::Walletd => "walletd",
            Daemon::Peerd => "peerd",
            Daemon::Syncerd => "syncerd",
            Daemon::Swapd => "swapd",
        }
    }
}

/// The text that says that a daemon was launched.
pub open spec fn launched_words(daemon: Daemon, pid: u32) -> Seq<char> {
    "New instance of "@ + daemon.spelled() + " launched with PID "@ + text::decimal_digits(
        pid as nat,
    )
}

/// Says that a daemon was launched and has a process identifier.
pub fn launched_text(daemon: Daemon, pid: u32) -> (text: String)
    ensures
        text@ == launched_words(daemon, pid),
{
    let number = decimal_text(pid as u64);
    let mut text = String::from_str("New instance of ");
    text.append(daemon.name());
    text.append(" launched with PID ");
    text.append(number.as_str());
    text
}

/// The views of a list of arguments.
pub open spec fn words(args: Seq<String>) -> Seq<Seq<char>> {
    Seq::new(args.len(), |i: int| args[i]@)
}

impl Task {
    /// The task launches a daemon with these arguments.
    pub open spec fn is(self, daemon: Daemon, args: Seq<Seq<char>>) -> bool {
        self.daemon == daemon && words(self.args@) == args
    }
}

/// An option with its value, if it is set.
pub open spec fn option_words(flag: Seq<char>, value: Option<String>) -> Seq<Seq<char>> {
    match value {
        Some(v) => seq![flag, v@],
        None => Seq::empty(),
    }
}

impl SharedOpts {
    /// As many letters as more output was asked for, as one option.
    pub open spec fn verbosity(self) -> Seq<Seq<char>> {
        if self.verbose > 0 {
            seq!["-"@ + Seq::new(self.verbose as nat, |i: int| 'v')]
        } else {
            Seq::empty()
        }
    }

    /// The option for the proxy.
    pub open spec fn proxy(self) -> Seq<Seq<char>> {
        match self.tor_proxy {
            Some(None) => seq!["-T"@],
            Some(Some(v)) => seq!["-T"@, v@],
            None => Seq::empty(),
        }
    }

    /// The options that are handed on.
    pub open spec fn forwarded(self) -> Seq<Seq<char>> {
        self.verbosity() + option_words("-d"@, self.data_dir) + option_words("-m"@, self.msg_socket)
            + option_words("-x"@, self.ctl_socket) + self.proxy()
    }
}

fn push_words(args: &mut Vec<String>, flag: &str, value: &str)
    ensures
        words(final(args)@) == words(old(args)@) + seq![flag@, value@],
{
    args.push(String::from_str(flag));
    args.push(String::from_str(value));
    assert(words(args@) =~= words(old(args)@) + seq![flag@, value@]);
}

fn push_word(args: &mut Vec<String>, word: &str)
    ensures
        words(final(args)@) == words(old(args)@) + seq![word@],
{
    args.push(String::from_str(word));
    assert(words(args@) =~= words(old(args)@) + seq![word@]);
}

fn push_option(args: &mut Vec<String>, flag: &str, value: &Option<String>)
    ensures
        words(final(args)@) == words(old(args)@) + option_words(flag@, *value),
{
    match value {
        Some(v) => {
            push_words(args, flag, v.as_str());
        },
        None => {
            assert(words(args@) =~= words(old(args)@) + option_words(flag@, *value));
        },
    }
}

fn verbosity_text(verbose: u64) -> (text: String)
    ensures
        text@ == "-"@ + Seq::new(verbose as nat, |i: int| 'v'),
{
    let mut text = String::from_str("-");
    proof {
        reveal_strlit("v");
        assert(text@ =~= "-"@ + Seq::new(0, |i: int| 'v'));
    }
    let mut n: u64 = 0;
    while n < verbose
        invariant
            n <= verbose,
            "v"@ == seq!['v'],
            text@ == "-"@ + Seq::new(n as nat, |i: int| 'v'),
        decreases verbose - n,
    {
        text.append("v");
        n += 1;
        assert(text@ =~= "-"@ + Seq::new(n as nat, |i: int| 'v'));
    }
    text
}

/// The command line that launches a daemon: the options that are handed on come first, then the
/// arguments that are for it alone.
pub fn launch(task: Task, opts: &SharedOpts) -> (r: Invocation)
    ensures
        r.program@ == task.daemon.spelled(),
        words(r.args@) == opts.forwarded() + words(task.args@),
{
    let mut args: Vec<String> = Vec::new();
    assert(words(args@) =~= Seq::empty());
    if opts.verbose > 0 {
        let v = verbosity_text(opts.verbose);
        push_word(&mut args, v.as_str());
    }
    assert(words(args@) =~= opts.verbosity());
    push_option(&mut args, "-d", &opts.data_dir);
    push_option(&mut args, "-m", &opts.msg_socket);
    push_option(&mut args, "-x", &opts.ctl_socket);
    let ghost before = words(args@);
    match &opts.tor_proxy {
        Some(None) => {
            push_word(&mut args, "-T");
        },
        Some(Some(val)) => {
            push_words(&mut args, "-T", val.as_str());
        },
        None => {},
    }
    assert(words(args@) =~= before + opts.proxy());
    let ghost front = args@;
    let mut own = task.args;
    args.append(&mut own);
    assert(words(args@) =~= words(front) + words(task.args@));
    Invocation { program: String::from_str(task.daemon.name()), args }
}

/// The arguments of the wallet's daemon.
pub open spec fn walletd_words(token: Seq<char>) -> Seq<Seq<char>> {
    seq!["--token"@, token]
}

/// The task to launch the wallet's daemon.
pub fn walletd_task(token: &str) -> (t: Task)
    ensures
        t.is(Daemon::Walletd, walletd_words(token@)),
{
    let mut args: Vec<String> = Vec::new();
    push_words(&mut args, "--token", token);
    assert(words(args@) =~= walletd_words(token@));
    Task { daemon: Daemon::Walletd, args }
}

/// The arguments of a peer daemon that listens.
pub open spec fn listen_words(ip: IpAddr, port: u16, key: SecretKey, token: Seq<char>) -> Seq<
    Seq<char>,
> {
    seq![
        "--listen"@,
        ip.digits(),
        "--port"@,
        text::decimal_digits(port as nat),
        "--peer-secret-key"@,
        ident::hex32(key.hi, key.lo),
        "--token"@,
        token,
    ]
}

/// The task to launch a peer daemon that listens.
pub fn listen_task(ip: IpAddr, port: u16, key: SecretKey, token: &str) -> (t: Task)
    ensures
        t.is(Daemon::Peerd, listen_words(ip, port, key, token@)),
{
    let mut args: Vec<String> = Vec::new();
    let ip_text = ip.to_text();
    let port_text = decimal_text(port as u64);
    let key_text = key.to_hex();
    push_words(&mut args, "--listen", ip_text.as_str());
    push_words(&mut args, "--port", port_text.as_str());
    push_words(&mut args, "--peer-secret-key", key_text.as_str());
    push_words(&mut args, "--token", token);
    assert(words(args@) =~= listen_words(ip, port, key, token@));
    Task { daemon: Daemon::Peerd, args }
}

/// The arguments of a peer daemon that connects.
pub open spec fn connect_words(node: NodeAddr, key: SecretKey, token: Seq<char>) -> Seq<Seq<char>> {
    seq![
        "--connect"@,
        node.text(),
        "--peer-secret-key"@,
        ident::hex32(key.hi, key.lo),
        "--token"@,
        token,
    ]
}

/// The task to launch a peer daemon that connects.
pub fn connect_task(node: NodeAddr, key: SecretKey, token: &str) -> (t: Task)
    ensures
        t.is(Daemon::Peerd, connect_words(node, key, token@)),
{
    let mut args: Vec<String> = Vec::new();
    let node_text = node.to_text();
    let key_text = key.to_hex();
    push_words(&mut args, "--connect", node_text.as_str());
    push_words(&mut args, "--peer-secret-key", key_text.as_str());
    push_words(&mut args, "--token", token);
    assert(words(args@) =~= connect_words(node, key, token@));
    Task { daemon: Daemon::Peerd, args }
}

/// The arguments of a swap's daemon.
pub open spec fn swapd_words(swap_id: SwapId, offer: Seq<char>, role: TradeRole) -> Seq<Seq<char>> {
    seq![ident::hex32(swap_id.hi, swap_id.lo), offer, role.spelled()]
}

/// The task to launch a swap's daemon.
pub fn swapd_task(swap_id: SwapId, offer: &str, role: TradeRole) -> (t: Task)
    ensures
        t.is(Daemon::Swapd, swapd_words(swap_id, offer@, role)),
{
    let mut args: Vec<String> = Vec::new();
    let id_text = swap_id.to_hex();
    push_words(&mut args, id_text.as_str(), offer);
    push_word(&mut args, role.name());
    assert(words(args@) =~= swapd_words(swap_id, offer@, role));
    Task { daemon: Daemon::Swapd, args }
}

/// The arguments that tell a syncer its servers: only those that its chain needs. There are none
/// where the network has no servers.
pub open spec fn server_words(config: Config, chain: Chain) -> Option<Seq<Seq<char>>> {
    match config.syncer_servers.of(chain.network) {
        Some(servers) => match chain.coin {
            Coin::Bitcoin => Some(seq!["--electrum-server"@, servers.electrum_server@]),
            Coin::Monero => Some(
                seq![
                    "--monero-daemon"@,
                    servers.monero_daemon@,
                    "--monero-rpc-wallet"@,
                    servers.monero_rpc_wallet@,
                ],
            ),
        },
        None => None,
    }
}

/// The arguments that tell a syncer its servers.
pub fn syncer_servers_args(config: &Config, chain: Chain) -> (r: Result<Vec<String>, Error>)
    ensures
        match r {
            Ok(args) => server_words(*config, chain) == Some(words(args@)),
            Err(e) => server_words(*config, chain) is None && e == Error::InvalidConfig,
        },
{
    match config.get_syncer_servers(chain.network) {
        Some(servers) => {
            let mut args: Vec<String> = Vec::new();
            assert(words(args@) =~= Seq::empty());
            match chain.coin {
                Coin::Bitcoin => {
                    push_words(&mut args, "--electrum-server", servers.electrum_server.as_str());
                },
                Coin::Monero => {
                    push_words(&mut args, "--monero-daemon", servers.monero_daemon.as_str());
                    push_words(
                        &mut args,
                        "--monero-rpc-wallet",
                        servers.monero_rpc_wallet.as_str(),
                    );
                },
            }
            assert(words(args@) =~= server_words(*config, chain)->0);
            Ok(args)
        },
        None => Err(Error::InvalidConfig),
    }
}

/// The arguments of a syncer.
pub open spec fn syncer_words(config: Config, chain: Chain) -> Option<Seq<Seq<char>>> {
    match server_words(config, chain) {
        Some(servers) => Some(
            seq!["--coin"@, chain.coin.spelled(), "--network"@, chain.network.spelled()] + servers,
        ),
        None => None,
    }
}

/// The task to launch a syncer.
pub fn syncer_task(config: &Config, chain: Chain) -> (r: Result<Task, Error>)
    ensures
        match r {
            Ok(t) => syncer_words(*config, chain) is Some && t.is(
                Daemon::Syncerd,
                syncer_words(*config, chain)->0,
            ),
            Err(e) => syncer_words(*config, chain) is None && e == Error::InvalidConfig,
        },
{
    let mut args: Vec<String> = Vec::new();
    push_words(&mut args, "--coin", chain.coin.name());
    push_words(&mut args, "--network", chain.network.name());
    match syncer_servers_args(config, chain) {
        Ok(servers) => {
            let mut servers = servers;
            let ghost front = args@;
            let ghost back = servers@;
            args.append(&mut servers);
            assert(words(args@) =~= words(front) + words(back));
            assert(words(args@) =~= syncer_words(*config, chain)->0);
            Ok(Task { daemon: Daemon::Syncerd, args })
        },
        Err(e) => Err(e),
    }
}

} // verus!
