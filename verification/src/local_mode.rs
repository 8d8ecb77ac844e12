//! Local mode: the desktop client runs a hub and a spoke of its own on this machine. Where their
//! state lives, the addresses they use, and the setup key the new hub hands out.

use vstd::prelude::*;
use crate::node_config::{join_path, join_path_text};
use crate::text::{copy_text, concat, lines, text_lines, texts_of, trim_text, trimmed, starts_with_text, decimal, decimal_text};

verus! {

/// The port of the local hub.
pub const LOCAL_PORT: u16 = 43123;

/// Where local mode keeps its state: under `$XDG_STATE_HOME` when it is set, else under
/// `$HOME/.local/state`; without either there is nowhere.
pub open spec fn local_root_of(xdg_state_home: Option<Seq<char>>, home: Option<Seq<char>>) -> Option<Seq<char>> {
    match xdg_state_home {
        Some(x) => Some(join_path(x, "pumpkinpi/local-v3"@)),
        None => match home {
            Some(h) => Some(join_path(h, ".local/state/pumpkinpi/local-v3"@)),
            None => None,
        },
    }
}

/// The directory local mode keeps its state in, given the values of `XDG_STATE_HOME` and `HOME`.
pub fn local_root(xdg_state_home: Option<&str>, home: Option<&str>) -> (r: Result<String, String>)
    ensures
        match local_root_of(crate::json::opt_text(xdg_state_home), crate::json::opt_text(home)) {
            Some(p) => r matches Ok(q) && q@ == p,
            None => r matches Err(m) && m@ == "HOME is required for local mode"@,
        },
{
    match xdg_state_home {
        Some(x) => Ok(join_path_text(x, "pumpkinpi/local-v3")),
        None => match home {
            Some(h) => Ok(join_path_text(h, ".local/state/pumpkinpi/local-v3")),
            None => Err(copy_text("HOME is required for local mode")),
        },
    }
}

/// The address the local hub listens on.
pub open spec fn local_listen() -> Seq<char> {
    "127.0.0.1:"@ + decimal(LOCAL_PORT as nat)
}

/// The local hub's listening address, its HTTP address, and the WebSocket endpoint the client
/// connects to.
pub fn local_endpoints() -> (r: (String, String, String))
    ensures
        r.0@ == local_listen(),
        r.1@ == "http://"@ + local_listen(),
        r.2@ == "ws://"@ + local_listen() + "/ws/client"@,
{
    let listen = concat("127.0.0.1:", decimal_text(LOCAL_PORT as u64).as_str());
    let http = concat("http://", listen.as_str());
    let mut ws = concat("ws://", listen.as_str());
    ws.append("/ws/client");
    (listen, http, ws)
}

/// The setup key among the lines a hub prints when it creates a spoke: what follows
/// `setup_key:` on the first line that begins with it, trimmed.
pub open spec fn setup_key_in(ls: Seq<Seq<char>>) -> Option<Seq<char>>
    decreases ls.len(),
{
    if ls.len() == 0 {
        None
    } else if 10 <= ls[0].len() && ls[0].subrange(0, 10) == "setup_key:"@ {
        Some(trimmed(ls[0].skip(10)))
    } else {
        setup_key_in(ls.drop_first())
    }
}

proof fn lemma_setup_key_step(all: Seq<Seq<char>>, i: int)
    requires
        0 <= i < all.len(),
    ensures
        setup_key_in(all.skip(i)) == (if 10 <= all[i].len() && all[i].subrange(0, 10) == "setup_key:"@ {
            Some(trimmed(all[i].skip(10)))
        } else {
            setup_key_in(all.skip(i + 1))
        }),
{
    assert(all.skip(i)[0] == all[i]);
    assert(all.skip(i).drop_first() =~= all.skip(i + 1));
}

/// The setup key in what `pumpkinpi-hub spoke create` printed (see `setup_key_in`).
pub fn setup_key_from_output(output: &str) -> (r: Option<String>)
    ensures
        crate::json::opt_string(r) == setup_key_in(text_lines(output@)),
{
    proof {
        reveal_strlit("setup_key:");
    }
    assert("setup_key:"@.len() == 10);
    let ls = lines(output);
    let ghost all = texts_of(ls@);
    assert(all.skip(0) =~= all);
    let mut i: usize = 0;
    while i < ls.len()
        invariant
            i <= ls@.len(),
            all == texts_of(ls@),
            all == text_lines(output@),
            "setup_key:"@.len() == 10,
            setup_key_in(all) == setup_key_in(all.skip(i as int)),
        decreases ls@.len() - i,
    {
        let line = ls[i].as_str();
        proof {
            lemma_setup_key_step(all, i as int);
        }
        if starts_with_text(line, "setup_key:") {
            let rest = line.substring_char(10, line.unicode_len());
            assert(rest@ =~= line@.skip(10));
            return Some(trim_text(rest));
        }
        i = i + 1;
    }
    assert(all.skip(i as int) =~= Seq::<Seq<char>>::empty());
    None
}

/// What bringing local mode up does: which of its steps are still to be taken.
#[derive(Debug)]
pub struct LocalPlan {
    /// Ask the local hub for an owner token (there is no saved one).
    pub create_token: bool,
    /// Create a spoke on the local hub and enroll the local node with its setup key.
    pub enroll_node: bool,
    /// Start the local hub (nothing answers on its port).
    pub start_hub: bool,
    /// Start the local node (it is not running).
    pub start_node: bool,
}

/// Why local mode cannot be brought up when its port is taken and no owner token was saved.
pub open spec fn port_taken_text() -> Seq<char> {
    "port "@ + decimal(LOCAL_PORT as nat) + " is already in use and no local credentials exist"@
}

/// Decides how to bring local mode up from what is on disk (a saved owner token, the node's
/// configuration), whether something answers on the local port, and whether the local node runs.
/// Without a saved token the port must be free, since the token can only come from a hub this
/// client starts; without the node's configuration likewise, since the node must be enrolled with
/// that hub.
pub fn local_plan(token_saved: bool, node_configured: bool, port_in_use: bool, node_running: bool) -> (r: Result<LocalPlan, String>)
    ensures
        !token_saved && port_in_use ==> (r matches Err(m) && m@ == port_taken_text()),
        token_saved && !node_configured && port_in_use ==> (r matches Err(m)
            && m@ == "local Hub is already running but local Spoke enrollment is incomplete"@),
        (token_saved || !port_in_use) && (node_configured || !port_in_use) ==> (r matches Ok(p) && p == (LocalPlan {
            create_token: !token_saved,
            enroll_node: !node_configured,
            start_hub: !port_in_use,
            start_node: !node_running,
        })),
{
    if !token_saved && port_in_use {
        let mut m = concat("port ", decimal_text(LOCAL_PORT as u64).as_str());
        m.append(" is already in use and no local credentials exist");
        return Err(m);
    }
    if !node_configured && port_in_use {
        return Err(copy_text("local Hub is already running but local Spoke enrollment is incomplete"));
    }
    Ok(LocalPlan {
        create_token: !token_saved,
        enroll_node: !node_configured,
        start_hub: !port_in_use,
        start_node: !node_running,
    })
}

} // verus!
