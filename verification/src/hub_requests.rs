//! How the hub answers a client's request: hub-wide questions and provider changes are answered
//! directly; everything about a spoke is forwarded to it, or answered from the cache while it is
//! away.

use vstd::prelude::*;
use crate::crypto::{hash, text_hash};
use crate::hub_providers::{
    provider_env_for_request, encrypt_provider, providers_wf, active_accounts_of, other_providers,
    account_index, project_default_provider, active_credential, provider_env_var, seals, sealable,
    nonce_well_formed, one_per_label, lemma_set_keeps_one_per_label, lemma_revoke_keeps_one_per_label,
};
use crate::hub_routing::{HubRoutes, PendingRequest, routes_wf, subscribed};
use crate::hub_store::{HubStore, SpokeAuth, StoredProvider, store_wf};
use crate::ids::{SpokeId, ProjectId, RequestId};
use crate::keyed::{Keyed, lookup, upsert};
use crate::messages::{
    ClientCommand, ClientRequest, ClientEvent, ClientPayload, HubToSpoke, command_spoke, command_project,
};
use crate::policy::PROTOCOL_VERSION;
use crate::records::{ProjectKey, ProjectRecord, ProviderAccount, SpokeRecord, snapshot_same};
use crate::snapshots::{find_snapshot, snapshot_index};
use crate::text::{copy_text, concat, decimal, decimal_text};

verus! {

/// Accepts only the protocol version this hub speaks.
pub fn check_version(v: u32) -> (r: Result<(), String>)
    ensures
        r is Ok <==> v == PROTOCOL_VERSION,
        r matches Err(m) ==> m@ == "unsupported protocol "@ + decimal(v as nat) + "; expected "@ + decimal(
            PROTOCOL_VERSION as nat,
        ),
{
    if v != PROTOCOL_VERSION {
        let mut m = concat("unsupported protocol ", decimal_text(v as u64).as_str());
        m.append("; expected ");
        m.append(decimal_text(PROTOCOL_VERSION as u64).as_str());
        Err(m)
    } else {
        Ok(())
    }
}

/// A client may connect when it speaks this protocol and presents the owner token whose hash the
/// hub holds.
pub fn client_authorized(store: &HubStore, protocol_version: u32, token: &str) -> (r: bool)
    ensures
        r == (protocol_version == PROTOCOL_VERSION && (store.owner_token_hash matches Some(h) && h@ == text_hash(token@))),
{
    if protocol_version != PROTOCOL_VERSION {
        return false;
    }
    match &store.owner_token_hash {
        None => false,
        Some(h) => {
            let t = hash(token);
            crate::text::text_eq(h, &t)
        },
    }
}

/// An event answering request `id`.
pub open spec fn answers(e: ClientEvent, id: RequestId, now: u64) -> bool {
    e.protocol_version == PROTOCOL_VERSION && e.id == Some(id) && e.created_at == now
}

/// The records of all spokes, in identifier order.
pub open spec fn spoke_records(spokes: Seq<SpokeAuth>) -> Seq<SpokeRecord> {
    spokes.map_values(|s: SpokeAuth| s.record)
}

/// The projects of the spokes that pass `filter` (all of them when it is `None`), spoke by spoke.
pub open spec fn listed_projects(spokes: Seq<SpokeAuth>, filter: Option<SpokeId>) -> Seq<ProjectRecord>
    decreases spokes.len(),
{
    if spokes.len() == 0 {
        Seq::empty()
    } else {
        let rest = listed_projects(spokes.drop_last(), filter);
        match filter {
            Some(f) if f@ != spokes.last().record.spoke_id@ => rest,
            _ => rest + spokes.last().projects@,
        }
    }
}

fn spoke_list(store: &HubStore) -> (r: Vec<SpokeRecord>)
    ensures
        r@ == spoke_records(store.spokes@),
{
    let mut out: Vec<SpokeRecord> = Vec::new();
    let mut i: usize = 0;
    while i < store.spokes.len()
        invariant
            i <= store.spokes@.len(),
            out@ == spoke_records(store.spokes@.subrange(0, i as int)),
        decreases store.spokes@.len() - i,
    {
        out.push(store.spokes[i].record.clone());
        i = i + 1;
        assert(out@ =~= spoke_records(store.spokes@.subrange(0, i as int)));
    }
    assert(store.spokes@.subrange(0, i as int) =~= store.spokes@);
    out
}

fn project_list(store: &HubStore, filter: &Option<SpokeId>) -> (r: Vec<ProjectRecord>)
    ensures
        r@ == listed_projects(store.spokes@, *filter),
{
    let mut out: Vec<ProjectRecord> = Vec::new();
    let mut i: usize = 0;
    while i < store.spokes.len()
        invariant
            i <= store.spokes@.len(),
            out@ == listed_projects(store.spokes@.subrange(0, i as int), *filter),
        decreases store.spokes@.len() - i,
    {
        proof {
            assert(store.spokes@.subrange(0, i + 1).drop_last() =~= store.spokes@.subrange(0, i as int));
        }
        let s = &store.spokes[i];
        let included = match filter {
            Some(f) => f.same(&s.record.spoke_id),
            None => true,
        };
        if included {
            let ghost before = out@;
            let mut j: usize = 0;
            while j < s.projects.len()
                invariant
                    j <= s.projects@.len(),
                    out@ == before + s.projects@.subrange(0, j as int),
                decreases s.projects@.len() - j,
            {
                out.push(s.projects[j].clone());
                j = j + 1;
                assert(out@ =~= before + s.projects@.subrange(0, j as int));
            }
            assert(s.projects@.subrange(0, j as int) =~= s.projects@);
        }
        i = i + 1;
    }
    assert(store.spokes@.subrange(0, i as int) =~= store.spokes@);
    out
}

/// The spoke `spoke` holds a live connection.
pub open spec fn is_connected(connected: Seq<SpokeId>, spoke: Seq<char>) -> bool {
    exists|i: int| 0 <= i < connected.len() && #[trigger] connected[i]@ == spoke
}

fn connected_to(connected: &Vec<SpokeId>, spoke: &SpokeId) -> (r: bool)
    ensures
        r == is_connected(connected@, spoke@),
{
    let mut i: usize = 0;
    while i < connected.len()
        invariant
            i <= connected@.len(),
            forall|j: int| 0 <= j < i ==> (#[trigger] connected@[j])@ != spoke@,
        decreases connected@.len() - i,
    {
        if connected[i].same(spoke) {
            return true;
        }
        i = i + 1;
    }
    false
}

/// A command that subscribes its sender to the project it names.
pub open spec fn subscribes(c: ClientCommand) -> bool {
    c is IntentSubscribe || c is IntentSend || c is ProjectInitialize
}

/// The command subscribes its sender to the project `project`.
pub open spec fn subscribes_to(c: ClientCommand, project: Seq<char>) -> bool {
    subscribes(c) && (command_project(c) matches Some(p) && p@ == project)
}

/// What the hub does with a request.
#[derive(Debug)]
pub enum RouteOutcome {
    /// Answer the client that sent the request.
    Reply(ClientEvent),
    /// Send `message` over the connection of the spoke `spoke_id`.
    Forward { spoke_id: SpokeId, message: HubToSpoke },
}

/// Answers the hub-wide requests: the hub's status and version, the spokes, the projects of all
/// spokes or of one, and the provider credentials, which it also sets and revokes. Any other
/// command is left for `route_request`.
pub fn answer_hub_request(
    store: &mut HubStore,
    key: &[u8; 32],
    req: &ClientRequest,
    hub_version: &str,
    now: u64,
) -> (r: Option<Result<ClientEvent, String>>)
    requires
        store_wf(*old(store)),
        providers_wf(old(store).providers@),
    ensures
        store_wf(*final(store)),
        providers_wf(final(store).providers@),
        final(store).spokes == old(store).spokes,
        final(store).snapshots == old(store).snapshots,
        final(store).owner_token_hash == old(store).owner_token_hash,
        r matches Some(Ok(e)) ==> answers(e, req.id, now),
        one_per_label(old(store).providers@) ==> one_per_label(final(store).providers@),
        match req.command {
            ClientCommand::HubStatus => r matches Some(Ok(e)) && e.payload matches ClientPayload::HubStatus { version }
                && version@ == hub_version@ && final(store).providers == old(store).providers,
            ClientCommand::SpokeList => r matches Some(Ok(e)) && e.payload matches ClientPayload::SpokeList { spokes }
                && spokes@ == spoke_records(old(store).spokes@) && final(store).providers == old(store).providers,
            ClientCommand::ProjectList { spoke_id } => r matches Some(Ok(e)) && e.payload matches ClientPayload::ProjectList { projects }
                && projects@ == listed_projects(old(store).spokes@, spoke_id) && final(store).providers == old(store).providers,
            ClientCommand::ProviderList => r matches Some(Ok(e)) && e.payload matches ClientPayload::ProviderList { accounts }
                && accounts@ == active_accounts_of(old(store).providers@) && final(store).providers == old(store).providers,
            ClientCommand::ProviderSet { provider_id, label, api_key } => match r {
                Some(Ok(e)) => exists|p: StoredProvider| {
                    &&& p.account.provider_id == provider_id
                    &&& p.account.label == label
                    &&& p.account.created_at == now
                    &&& p.account.revoked_at is None
                    &&& nonce_well_formed(p)
                    &&& seals(key@, p, api_key@)
                    &&& sealable(api_key@)
                    &&& final(store).providers@ == #[trigger] other_providers(old(store).providers@, provider_id@, label@).push(p)
                    &&& e.payload matches ClientPayload::ProviderList { accounts }
                        && accounts@ == active_accounts_of(final(store).providers@)
                },
                Some(Err(m)) => m@ == "provider encryption failed"@ && !sealable(api_key@)
                    && final(store).providers == old(store).providers,
                None => false,
            },
            ClientCommand::ProviderRevoke { provider_account_id } => match account_index(old(store).providers@, provider_account_id@) {
                None => r matches Some(Err(m)) && m@ == "provider account not found"@
                    && final(store).providers@ == old(store).providers@,
                Some(i) => {
                    let o = old(store).providers@[i];
                    &&& r matches Some(Ok(e)) && e.payload matches ClientPayload::ProviderList { accounts }
                        && accounts@ == active_accounts_of(final(store).providers@)
                    &&& final(store).providers@ == old(store).providers@.update(i, StoredProvider {
                        account: ProviderAccount { revoked_at: Some(now), ..o.account },
                        ..o
                    })
                },
            },
            _ => r is None && final(store).providers == old(store).providers,
        },
{
    let payload = match &req.command {
        ClientCommand::HubStatus => ClientPayload::HubStatus { version: copy_text(hub_version) },
        ClientCommand::SpokeList => ClientPayload::SpokeList { spokes: spoke_list(store) },
        ClientCommand::ProjectList { spoke_id } => ClientPayload::ProjectList { projects: project_list(store, spoke_id) },
        ClientCommand::ProviderList => ClientPayload::ProviderList { accounts: store.active_accounts() },
        ClientCommand::ProviderSet { provider_id, label, api_key } => {
            let stored = match encrypt_provider(key, provider_id.clone(), label.clone(), api_key.as_str(), now) {
                Ok(p) => p,
                Err(m) => {
                    return Some(Err(m));
                },
            };
            let ghost p = stored;
            proof {
                if one_per_label(old(store).providers@) {
                    lemma_set_keeps_one_per_label(old(store).providers@, p);
                }
            }
            store.set_provider(stored);
            assert(store.providers@ == other_providers(old(store).providers@, provider_id@, label@).push(p));
            ClientPayload::ProviderList { accounts: store.active_accounts() }
        },
        ClientCommand::ProviderRevoke { provider_account_id } => {
            let ghost before = store.providers@;
            match store.revoke_provider(provider_account_id.as_str(), now) {
                Ok(()) => {
                    proof {
                        if one_per_label(before) {
                            match account_index(before, provider_account_id@) {
                                Some(i) => {
                                    lemma_revoke_keeps_one_per_label(before, i, now);
                                },
                                None => {},
                            }
                        }
                    }
                },
                Err(m) => {
                    return Some(Err(m));
                },
            }
            ClientPayload::ProviderList { accounts: store.active_accounts() }
        },
        _ => {
            return None;
        },
    };
    Some(Ok(ClientEvent { protocol_version: PROTOCOL_VERSION, id: Some(req.id.clone()), created_at: now, payload }))
}

/// The environment a forwarded command would run with cannot be built: the project's default
/// provider has no active credential, or is not supported.
pub open spec fn env_refused(store: HubStore, spoke: Seq<char>, project: Option<ProjectId>) -> Option<Seq<char>> {
    match project {
        None => None,
        Some(pid) => match project_default_provider(store, spoke, pid@) {
            None => None,
            Some(provider) => match active_credential(store.providers@, provider) {
                None => Some("no active credential for provider "@ + provider),
                Some(_) => match provider_env_var(provider) {
                    None => Some("unsupported provider "@ + provider),
                    Some(_) => None,
                },
            },
        },
    }
}

/// `env` is an environment a forwarded command may run with: empty when the command names no
/// project or the project has no default provider, and otherwise the one variable of the default
/// provider holding an API key that the provider's first active credential seals under `key`.
pub open spec fn request_env(store: HubStore, spoke: Seq<char>, project: Option<ProjectId>, key: Seq<u8>, env: Seq<(String, String)>) -> bool {
    match project {
        None => env.len() == 0,
        Some(pid) => match project_default_provider(store, spoke, pid@) {
            None => env.len() == 0,
            Some(provider) => match active_credential(store.providers@, provider) {
                None => false,
                Some(i) => match provider_env_var(provider) {
                    None => false,
                    Some(var) => env.len() == 1 && env[0].0@ == var && seals(key, store.providers@[i], env[0].1@),
                },
            },
        },
    }
}

/// The environment can be built: no credential is needed, or the credential to use seals an API
/// key short enough to seal.
pub open spec fn env_available(store: HubStore, spoke: Seq<char>, project: Option<ProjectId>, key: Seq<u8>) -> bool {
    match project {
        None => true,
        Some(pid) => match project_default_provider(store, spoke, pid@) {
            None => true,
            Some(provider) => match active_credential(store.providers@, provider) {
                None => false,
                Some(i) => exists|s: Seq<char>| #[trigger] seals(key, store.providers@[i], s) && sealable(s),
            },
        },
    }
}

/// What routing `req` from `client` to its spoke `spoke`, with the environment `env`, does:
/// while the spoke is connected the command goes to it with `env` and the request waits for the
/// spoke's answer under the spoke and request identifier; while it is away, a subscription is
/// answered with the cached snapshot of the project, and anything else is refused.
pub open spec fn routed(
    store: HubStore,
    o: Seq<PendingRequest>,
    n: Seq<PendingRequest>,
    client: Seq<char>,
    req: ClientRequest,
    spoke: SpokeId,
    env: Seq<(String, String)>,
    connected: Seq<SpokeId>,
    now: u64,
    r: Result<RouteOutcome, String>,
) -> bool {
    if is_connected(connected, spoke@) {
        &&& r matches Ok(RouteOutcome::Forward { spoke_id, message }) && spoke_id == spoke
            && (message matches HubToSpoke::Command { request, provider_env } && request == req && provider_env@ == env)
        &&& lookup(n, (spoke@, req.id@)) matches Some(w) && w.client_id@ == client
        &&& forall|k: (Seq<char>, Seq<char>)| k != (spoke@, req.id@) ==> #[trigger] lookup(n, k) == lookup(o, k)
    } else {
        &&& n == o
        &&& match req.command {
            ClientCommand::IntentSubscribe { project_id, .. } => match snapshot_index(store.snapshots@, project_id@, spoke@) {
                Some(i) => r matches Ok(RouteOutcome::Reply(e)) && answers(e, req.id, now)
                    && (e.payload matches ClientPayload::ProjectSnapshot { snapshot } && snapshot_same(store.snapshots@[i], *snapshot)),
                None => r matches Err(m) && m@ == "spoke is offline and no cached Intent Chat is available"@,
            },
            _ => r matches Err(m) && m@ == "spoke is offline"@,
        }
    }
}

/// Sends `req` on to its spoke with the environment `provider_env`, or answers it from the cache
/// while the spoke is away (see `routed`).
pub fn forward_or_answer(
    store: &HubStore,
    routes: &mut HubRoutes,
    client: &str,
    req: ClientRequest,
    provider_env: Vec<(String, String)>,
    connected: &Vec<SpokeId>,
    now: u64,
) -> (r: Result<RouteOutcome, String>)
    requires
        routes_wf(*old(routes)),
        command_spoke(req.command) is Some,
    ensures
        routes_wf(*final(routes)),
        final(routes).subscriptions == old(routes).subscriptions,
        routed(*store, old(routes).pending@, final(routes).pending@, client@, req, command_spoke(req.command)->0,
            provider_env@, connected@, now, r),
{
    let spoke = match req.command.spoke_id() {
        None => {
            return Err(copy_text("missing spoke route"));
        },
        Some(s) => s.clone(),
    };
    if connected_to(connected, &spoke) {
        upsert(&mut routes.pending, PendingRequest {
            spoke_id: spoke.clone(),
            request_id: req.id.clone(),
            client_id: copy_text(client),
        });
        return Ok(RouteOutcome::Forward {
            spoke_id: spoke,
            message: HubToSpoke::Command { request: req, provider_env },
        });
    }
    match &req.command {
        ClientCommand::IntentSubscribe { project_id, .. } => {
            match find_snapshot(&store.snapshots, project_id, &spoke) {
                None => Err(copy_text("spoke is offline and no cached Intent Chat is available")),
                Some(i) => {
                    let snapshot = store.snapshots[i].clone();
                    Ok(RouteOutcome::Reply(ClientEvent {
                        protocol_version: PROTOCOL_VERSION,
                        id: Some(req.id.clone()),
                        created_at: now,
                        payload: ClientPayload::ProjectSnapshot { snapshot: Box::new(snapshot) },
                    }))
                },
            }
        },
        _ => Err(copy_text("spoke is offline")),
    }
}

/// Routes a request that is about a spoke. The sender is first subscribed to the project that an
/// Intent Chat subscription or message names. Then the environment of the project's default
/// provider is built (decrypting its credential) and the request is routed with it (see
/// `routed`). A request that names no spoke is refused.
pub fn route_spoke_request(
    store: &HubStore,
    routes: &mut HubRoutes,
    key: &[u8; 32],
    client: &str,
    req: ClientRequest,
    connected: &Vec<SpokeId>,
    now: u64,
) -> (r: Result<RouteOutcome, String>)
    requires
        store_wf(*store),
        providers_wf(store.providers@),
        routes_wf(*old(routes)),
    ensures
        routes_wf(*final(routes)),
        match command_spoke(req.command) {
            None => r matches Err(m) && m@ == "missing spoke route"@ && *final(routes) == *old(routes),
            Some(spoke) => {
                &&& forall|c: Seq<char>, s: Seq<char>, p: Seq<char>|
                    #[trigger] subscribed(final(routes).subscriptions@, c, s, p) == (subscribed(old(routes).subscriptions@, c, s, p)
                        || (subscribes_to(req.command, p) && c == client@ && s == spoke@))
                &&& match env_refused(*store, spoke@, command_project(req.command)) {
                    Some(m) => r matches Err(e) && e@ == m && final(routes).pending@ == old(routes).pending@,
                    None => {
                        &&& (r is Err && final(routes).pending@ == old(routes).pending@
                            && !env_available(*store, spoke@, command_project(req.command), key@))
                            || exists|env: Seq<(String, String)>|
                                request_env(*store, spoke@, command_project(req.command), key@, env)
                                && #[trigger] routed(*store, old(routes).pending@, final(routes).pending@,
                                    client@, req, spoke, env, connected@, now, r)
                    },
                }
            },
        },
{
    let spoke = match req.command.spoke_id() {
        None => {
            return Err(copy_text("missing spoke route"));
        },
        Some(s) => s.clone(),
    };
    let project = req.command.project_id();
    let subscribing = match &req.command {
        ClientCommand::IntentSubscribe { .. } => true,
        ClientCommand::IntentSend { .. } => true,
        ClientCommand::ProjectInitialize { .. } => true,
        _ => false,
    };
    match &project {
        Some(pid) => {
            if subscribing {
                routes.subscribe(client, ProjectKey { spoke_id: spoke.clone(), project_id: pid.clone() });
            }
        },
        None => {},
    }
    let provider_env = provider_env_for_request(store, &spoke, project.as_ref(), key)?;
    forward_or_answer(store, routes, client, req, provider_env, connected, now)
}

} // verus!
