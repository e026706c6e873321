//! What holds of the command lines that daemons are launched with.

use crate::addr::{self, IpAddr, NodeAddr};
use crate::chain::Chain;
use crate::clock::Moment;
use crate::config::Config;
use crate::farcasterd::launch::{self, Daemon, Invocation, SharedOpts, Task};
use crate::farcasterd::runtime::{self, Runtime};
use crate::farcasterd::state::State;
use crate::farcasterd::swap_laws;
use crate::ident::{self, SecretKey, SwapId};
use crate::offer::TradeRole;
use crate::rpc::Error;
use crate::text;
use vstd::prelude::*;

verus! {

/// An option and its value, where it has one.
pub open spec fn given(flag: Seq<char>, value: Option<String>) -> Seq<Seq<char>> {
    match value {
        Some(v) => seq![flag, v@],
        None => seq![],
    }
}

/// A daemon is launched by the program of its name. The options that this daemon was started with
/// come first: how much output was asked for, the directory, the two sockets and the proxy, each
/// only if it was given. What is for the daemon alone comes behind them, in its order.
pub proof fn law_daemon_is_launched_by_its_name(task: Task, opts: &SharedOpts, r: Invocation)
    requires
        call_ensures(launch::launch, (task, opts), r),
    ensures
        r.program@ == (match task.daemon {
            Daemon::Walletd => "walletd"@,
            Daemon::Peerd => "peerd"@,
            Daemon::Syncerd => "syncerd"@,
            Daemon::Swapd => "swapd"@,
        }),
        ({
            let verbose = if opts.verbose == 0 {
                seq![]
            } else {
                seq!["-"@ + Seq::new(opts.verbose as nat, |i: int| 'v')]
            };
            let proxy = match opts.tor_proxy {
                None => seq![],
                Some(None) => seq!["-T"@],
                Some(Some(v)) => seq!["-T"@, v@],
            };
            let front = verbose + given("-d"@, opts.data_dir) + given("-m"@, opts.msg_socket)
                + given("-x"@, opts.ctl_socket) + proxy;
            &&& r.args@.len() == front.len() + task.args@.len()
            &&& forall|i: int| 0 <= i < front.len() ==> (#[trigger] r.args@[i])@ == front[i]
            &&& forall|i: int|
                0 <= i < task.args@.len() ==> r.args@[front.len() + i]@ == (
                #[trigger] task.args@[i])@
        }),
{
    let front = opts.forwarded();
    let args = launch::words(r.args@);
    assert(args == front + launch::words(task.args@));
    assert(args.len() == r.args@.len());
    assert(launch::words(task.args@).len() == task.args@.len());
    assert forall|i: int| 0 <= i < front.len() implies (#[trigger] r.args@[i])@ == front[i] by {
        assert(args[i] == r.args@[i]@);
    }
    assert forall|i: int| 0 <= i < task.args@.len() implies r.args@[front.len() + i]@ == (
    #[trigger] task.args@[i])@ by {
        assert(args[front.len() + i] == r.args@[front.len() + i]@);
        assert(launch::words(task.args@)[i] == task.args@[i]@);
    }
}

/// The daemon starts with the wallet's daemon being launched, which gets the token that the wallet
/// is asked with from then on.
pub proof fn law_wallet_gets_the_token(
    config: Config,
    token: String,
    started: Moment,
    r: (Task, Runtime),
)
    requires
        call_ensures(runtime::run, (config, token, started), r),
    ensures
        swap_laws::runs(r.0, Daemon::Walletd, seq!["--token"@, token@]),
        r.1@ == State::initial(config, token, started),
        r.1@.wallet_token == token,
        r.1@.config == config,
        r.1@.started == started,
{
    swap_laws::lemma_runs(r.0, Daemon::Walletd, seq!["--token"@, token@]);
}

/// A peer daemon that listens gets the address and the port to listen at, its secret key and the
/// wallet's token.
pub proof fn law_listener_gets_its_address(
    ip: IpAddr,
    port: u16,
    key: SecretKey,
    token: &str,
    task: Task,
)
    requires
        call_ensures(launch::listen_task, (ip, port, key, token), task),
    ensures
        swap_laws::runs(
            task,
            Daemon::Peerd,
            seq![
                "--listen"@,
                match ip {
                    IpAddr::V4(n) => addr::dotted(n),
                    IpAddr::V6(n) => addr::ipv6_text(n),
                },
                "--port"@,
                text::decimal_digits(port as nat),
                "--peer-secret-key"@,
                ident::hex32(key.hi, key.lo),
                "--token"@,
                token@,
            ],
        ),
{
    swap_laws::lemma_runs(task, Daemon::Peerd, launch::listen_words(ip, port, key, token@));
}

/// A peer daemon that connects gets the node to connect to, its secret key and the wallet's token.
pub proof fn law_connecting_peer_gets_the_node(
    node: NodeAddr,
    key: SecretKey,
    token: &str,
    task: Task,
)
    requires
        call_ensures(launch::connect_task, (node, key, token), task),
    ensures
        swap_laws::runs(
            task,
            Daemon::Peerd,
            seq![
                "--connect"@,
                swap_laws::node_words(node),
                "--peer-secret-key"@,
                ident::hex32(key.hi, key.lo),
                "--token"@,
                token@,
            ],
        ),
{
    swap_laws::lemma_runs(task, Daemon::Peerd, launch::connect_words(node, key, token@));
}

/// A swap's daemon gets the swap's identifier, the text of the offer and the role.
pub proof fn law_swap_daemon_gets_the_offer(swap: SwapId, offer: &str, role: TradeRole, task: Task)
    requires
        call_ensures(launch::swapd_task, (swap, offer, role), task),
    ensures
        swap_laws::runs(
            task,
            Daemon::Swapd,
            seq![
                ident::hex32(swap.hi, swap.lo),
                offer@,
                match role {
                    TradeRole::Maker => "Maker"@,
                    TradeRole::Taker => "Taker"@,
                },
            ],
        ),
{
    swap_laws::lemma_runs(task, Daemon::Swapd, launch::swapd_words(swap, offer@, role));
}

/// A syncer gets its coin, its network, and those of the servers of its network that its coin needs.
/// Without servers for the network there is none.
pub proof fn law_syncer_gets_its_servers(
    config: &Config,
    chain: Chain,
    r: Result<Task, Error>,
    s: State,
)
    requires
        call_ensures(launch::syncer_task, (config, chain), r),
        s.config == *config,
    ensures
        match swap_laws::servers_set(s, chain.network) {
            Some(servers) => r matches Ok(task) && swap_laws::runs(
                task,
                Daemon::Syncerd,
                swap_laws::syncer_args(chain, servers),
            ),
            None => r == Err::<Task, Error>(Error::InvalidConfig),
        },
{
    swap_laws::lemma_syncer_words(s, chain);
    if let Some(servers) = swap_laws::servers_set(s, chain.network) {
        swap_laws::lemma_runs(r->Ok_0, Daemon::Syncerd, swap_laws::syncer_args(chain, servers));
    }
}

/// Who launched a daemon is told the name of its program and the number of its process.
pub proof fn law_launch_is_told_with_the_process(daemon: Daemon, pid: u32, r: String)
    requires
        call_ensures(launch::launched_text, (daemon, pid), r),
    ensures
        r@ == "New instance of "@ + (match daemon {
            Daemon::Walletd => "walletd"@,
            Daemon::Peerd => "peerd"@,
            Daemon::Syncerd => "syncerd"@,
            Daemon::Swapd => "swapd"@,
        }) + " launched with PID "@ + text::decimal_digits(pid as nat),
{
}

} // verus!
