//! Provider credentials on the hub: encrypted at rest, listed without their secrets,
//! revoked in place, and decrypted only into the environment of the command that needs them.

use vstd::prelude::*;
use crate::crypto::{base64_text, base64_encode, base64_decode, aes_gcm_seal, aes_gcm_plaintext_limit, aes_gcm_encrypt, aes_gcm_decrypt, random_bytes_12, new_uuid_simple, utf8_text};
use crate::hub_store::{HubStore, StoredProvider, store_wf, spoke_entry};
use crate::ids::{SpokeId, ProjectId};
use crate::keyed::{lookup, find};
use crate::records::ProviderAccount;
use crate::text::{str_eq, text_eq, concat, copy_text, trim_text, trimmed};
use vstd::utf8::{encode_utf8, encode_utf8_valid_utf8, encode_utf8_decode_utf8};

verus! {

/// The accounts of the credentials that have not been revoked, in storage order.
pub open spec fn active_accounts_of(ps: Seq<StoredProvider>) -> Seq<ProviderAccount>
    decreases ps.len(),
{
    if ps.len() == 0 {
        Seq::empty()
    } else if ps.last().account.revoked_at is None {
        active_accounts_of(ps.drop_last()).push(ps.last().account)
    } else {
        active_accounts_of(ps.drop_last())
    }
}

/// The credentials that are not for `provider_id` under `label`, in storage order.
pub open spec fn other_providers(ps: Seq<StoredProvider>, provider_id: Seq<char>, label: Seq<char>) -> Seq<StoredProvider>
    decreases ps.len(),
{
    if ps.len() == 0 {
        Seq::empty()
    } else if ps.last().account.provider_id@ != provider_id || ps.last().account.label@ != label {
        other_providers(ps.drop_last(), provider_id, label).push(ps.last())
    } else {
        other_providers(ps.drop_last(), provider_id, label)
    }
}

/// Two credentials are for the same provider under the same label.
pub open spec fn same_label(a: StoredProvider, b: StoredProvider) -> bool {
    a.account.provider_id@ == b.account.provider_id@ && a.account.label@ == b.account.label@
}

/// No two stored credentials are for the same provider under the same label.
pub closed spec fn one_per_label(ps: Seq<StoredProvider>) -> bool {
    forall|i: int, j: int| 0 <= i < j < ps.len() ==> !same_label(#[trigger] ps[i], #[trigger] ps[j])
}

proof fn lemma_other_providers(ps: Seq<StoredProvider>, provider_id: Seq<char>, label: Seq<char>)
    ensures
        forall|k: int| 0 <= k < other_providers(ps, provider_id, label).len() ==> {
            &&& exists|j: int| 0 <= j < ps.len() && ps[j] == #[trigger] other_providers(ps, provider_id, label)[k]
            &&& !(other_providers(ps, provider_id, label)[k].account.provider_id@ == provider_id
                && other_providers(ps, provider_id, label)[k].account.label@ == label)
        },
        one_per_label(ps) ==> one_per_label(other_providers(ps, provider_id, label)),
    decreases ps.len(),
{
    if ps.len() > 0 {
        let dl = ps.drop_last();
        lemma_other_providers(dl, provider_id, label);
        let rest = other_providers(dl, provider_id, label);
        let o = other_providers(ps, provider_id, label);
        assert forall|k: int| 0 <= k < o.len() implies
            exists|j: int| 0 <= j < ps.len() && ps[j] == #[trigger] o[k] by {
            if k < rest.len() {
                assert(o[k] == rest[k]);
                let j = choose|j: int| 0 <= j < dl.len() && dl[j] == #[trigger] rest[k];
                assert(ps[j] == o[k]);
            } else {
                assert(ps[ps.len() - 1] == o[k]);
            }
        }
        if one_per_label(ps) {
            assert(one_per_label(dl)) by {
                assert forall|i: int, j: int| 0 <= i < j < dl.len() implies !same_label(#[trigger] dl[i], #[trigger] dl[j]) by {
                    assert(dl[i] == ps[i] && dl[j] == ps[j]);
                }
            }
            assert forall|i: int, j: int| 0 <= i < j < o.len() implies !same_label(#[trigger] o[i], #[trigger] o[j]) by {
                if j < rest.len() {
                    assert(o[i] == rest[i] && o[j] == rest[j]);
                } else {
                    assert(o[i] == rest[i]);
                    assert(o[j] == ps.last());
                    let q = choose|q: int| 0 <= q < dl.len() && dl[q] == #[trigger] rest[i];
                    assert(ps[q] == o[i]);
                    assert(!same_label(ps[q], ps[ps.len() - 1]));
                }
            }
        }
    }
}

/// Setting a credential keeps one credential per provider and label: the earlier ones for its
/// provider and label are dropped.
pub proof fn lemma_set_keeps_one_per_label(ps: Seq<StoredProvider>, p: StoredProvider)
    requires
        one_per_label(ps),
    ensures
        one_per_label(other_providers(ps, p.account.provider_id@, p.account.label@).push(p)),
{
    let o = other_providers(ps, p.account.provider_id@, p.account.label@);
    lemma_other_providers(ps, p.account.provider_id@, p.account.label@);
    let n = o.push(p);
    assert forall|i: int, j: int| 0 <= i < j < n.len() implies !same_label(#[trigger] n[i], #[trigger] n[j]) by {
        assert(n[i] == o[i]);
        if j < o.len() {
            assert(n[j] == o[j]);
        } else {
            assert(n[j] == p);
        }
    }
}

/// Revoking a credential keeps one credential per provider and label.
pub proof fn lemma_revoke_keeps_one_per_label(ps: Seq<StoredProvider>, i: int, now: u64)
    requires
        one_per_label(ps),
        0 <= i < ps.len(),
    ensures
        one_per_label(ps.update(i, StoredProvider {
            account: ProviderAccount { revoked_at: Some(now), ..ps[i].account },
            ..ps[i]
        })),
{
    let n = ps.update(i, StoredProvider { account: ProviderAccount { revoked_at: Some(now), ..ps[i].account }, ..ps[i] });
    assert forall|a: int, b: int| 0 <= a < b < n.len() implies !same_label(#[trigger] n[a], #[trigger] n[b]) by {
        assert(same_label(n[a], n[b]) == same_label(ps[a], ps[b]));
    }
}

/// The position of the first credential with account identifier `id`.
pub open spec fn account_index(ps: Seq<StoredProvider>, id: Seq<char>) -> Option<int> {
    if exists|i: int| 0 <= i < ps.len() && #[trigger] ps[i].account.provider_account_id@ == id {
        Some(choose|i: int| 0 <= i < ps.len() && #[trigger] ps[i].account.provider_account_id@ == id
            && forall|j: int| 0 <= j < i ==> ps[j].account.provider_account_id@ != id)
    } else {
        None
    }
}

/// A stored credential's nonce is the text of twelve bytes.
pub open spec fn nonce_well_formed(p: StoredProvider) -> bool {
    forall|b: Seq<u8>| #[trigger] base64_text(b) == p.nonce@ ==> b.len() == 12
}

pub open spec fn providers_wf(ps: Seq<StoredProvider>) -> bool {
    forall|i: int| 0 <= i < ps.len() ==> nonce_well_formed(#[trigger] ps[i])
}

/// Whether every stored credential's nonce is, if it is base64 text at all, the text of twelve
/// bytes: the condition under which credentials can be handed to decryption.
pub fn providers_well_formed(ps: &Vec<StoredProvider>) -> (r: bool)
    ensures
        r == providers_wf(ps@),
{
    let mut i: usize = 0;
    while i < ps.len()
        invariant
            i <= ps@.len(),
            forall|j: int| 0 <= j < i ==> nonce_well_formed(#[trigger] ps@[j]),
        decreases ps@.len() - i,
    {
        match base64_decode(ps[i].nonce.as_str()) {
            Ok(b) => {
                if b.len() != 12 {
                    assert(!nonce_well_formed(ps@[i as int])) by {
                        assert(base64_text(b@) == ps@[i as int].nonce@);
                    }
                    return false;
                }
            },
            Err(_) => {},
        }
        i = i + 1;
    }
    true
}

/// The environment variable that carries the API key of a provider.
pub open spec fn provider_env_var(provider: Seq<char>) -> Option<Seq<char>> {
    if provider == "anthropic"@ {
        Some("ANTHROPIC_API_KEY"@)
    } else if provider == "openai"@ {
        Some("OPENAI_API_KEY"@)
    } else if provider == "google"@ || provider == "gemini"@ {
        Some("GOOGLE_API_KEY"@)
    } else if provider == "xai"@ {
        Some("XAI_API_KEY"@)
    } else if provider == "openrouter"@ {
        Some("OPENROUTER_API_KEY"@)
    } else {
        None
    }
}

/// The supported providers and the variable each one's API key is passed in; Google's models
/// are reachable under two provider names that share one variable.
pub open spec fn provider_variables() -> Map<Seq<char>, Seq<char>> {
    map![
        "anthropic"@ => "ANTHROPIC_API_KEY"@,
        "openai"@ => "OPENAI_API_KEY"@,
        "google"@ => "GOOGLE_API_KEY"@,
        "gemini"@ => "GOOGLE_API_KEY"@,
        "xai"@ => "XAI_API_KEY"@,
        "openrouter"@ => "OPENROUTER_API_KEY"@
    ]
}

/// A provider's API key goes in the variable the table above gives it, and a provider that is
/// not in the table has none.
pub proof fn lemma_provider_variables(provider: Seq<char>)
    ensures
        provider_env_var(provider) == (if provider_variables().dom().contains(provider) {
            Some(provider_variables()[provider])
        } else {
            None::<Seq<char>>
        }),
{
    reveal_strlit("anthropic");
    reveal_strlit("openai");
    reveal_strlit("google");
    reveal_strlit("gemini");
    reveal_strlit("xai");
    reveal_strlit("openrouter");
    assert("anthropic"@.len() == 9);
    assert("openai"@.len() == 6);
    assert("google"@.len() == 6);
    assert("gemini"@.len() == 6);
    assert("xai"@.len() == 3);
    assert("openrouter"@.len() == 10);
    assert("openai"@[0] == 'o');
    assert("google"@[0] == 'g');
    assert("google"@[1] == 'o');
    assert("gemini"@[0] == 'g');
    assert("gemini"@[1] == 'e');
}

/// The environment variable for a provider's API key; other providers are unsupported.
pub fn provider_env_name(provider: &str) -> (r: Result<&'static str, String>)
    ensures
        match provider_env_var(provider@) {
            Some(v) => r matches Ok(n) && n@ == v,
            None => r matches Err(m) && m@ == "unsupported provider "@ + provider@,
        },
{
    if str_eq(provider, "anthropic") {
        Ok("ANTHROPIC_API_KEY")
    } else if str_eq(provider, "openai") {
        Ok("OPENAI_API_KEY")
    } else if str_eq(provider, "google") || str_eq(provider, "gemini") {
        Ok("GOOGLE_API_KEY")
    } else if str_eq(provider, "xai") {
        Ok("XAI_API_KEY")
    } else if str_eq(provider, "openrouter") {
        Ok("OPENROUTER_API_KEY")
    } else {
        Err(concat("unsupported provider ", provider))
    }
}

/// An API key short enough for AES-GCM to seal: its UTF-8 bytes number at most 2^36.
pub open spec fn sealable(api_key: Seq<char>) -> bool {
    encode_utf8(api_key).len() <= aes_gcm_plaintext_limit()
}

/// Encrypts `api_key` under `key` with a fresh random nonce into a new credential for
/// `provider_id` under `label`, created at `now`; only the account is public. It fails exactly on
/// a key too long to seal.
pub fn encrypt_provider(key: &[u8; 32], provider_id: String, label: String, api_key: &str, now: u64) -> (r: Result<StoredProvider, String>)
    ensures
        r is Ok <==> sealable(api_key@),
        match r {
            Ok(p) => {
                &&& p.account.provider_id == provider_id
                &&& p.account.label == label
                &&& p.account.created_at == now
                &&& p.account.revoked_at is None
                &&& p.account.provider_account_id@.subrange(0, 9) == "provider_"@
                &&& nonce_well_formed(p)
                &&& seals(key@, p, api_key@)
            },
            Err(m) => m@ == "provider encryption failed"@,
        },
{
    let nonce = random_bytes_12();
    let sealed = match aes_gcm_encrypt(key, &nonce, api_key.as_bytes()) {
        Ok(c) => c,
        Err(()) => {
            return Err(copy_text("provider encryption failed"));
        },
    };
    let id = concat("provider_", new_uuid_simple().as_str());
    proof {
        reveal_strlit("provider_");
        assert(id@.subrange(0, 9) =~= "provider_"@);
    }
    let nonce_text = base64_encode(&nonce);
    let cipher_text = base64_encode(sealed.as_slice());
    Ok(StoredProvider {
        account: ProviderAccount {
            provider_account_id: id,
            provider_id,
            label,
            created_at: now,
            revoked_at: None,
        },
        nonce: nonce_text,
        ciphertext: cipher_text,
    })
}

/// Decodes the hub's master key from the text of its key file: the base64 text, trimmed, of
/// exactly 32 bytes.
pub fn master_key_bytes(encoded: &str) -> (r: Result<[u8; 32], String>)
    ensures
        match r {
            Ok(k) => base64_text(k@) == trimmed(encoded@),
            Err(m) => match choose_decoded(trimmed(encoded@)) {
                Some(b) => b.len() != 32 && m@ == "invalid Hub master key"@,
                None => forall|b: Seq<u8>| base64_text(b) != trimmed(encoded@),
            },
        },
{
    let t = trim_text(encoded);
    let bytes = match base64_decode(t.as_str()) {
        Ok(b) => b,
        Err(m) => {
            return Err(m);
        },
    };
    if bytes.len() != 32 {
        return Err(copy_text("invalid Hub master key"));
    }
    let mut key = [0u8; 32];
    let mut i: usize = 0;
    while i < 32
        invariant
            i <= 32,
            bytes@.len() == 32,
            forall|j: int| 0 <= j < i ==> key@[j] == bytes@[j],
        decreases 32 - i,
    {
        key[i] = bytes[i];
        i = i + 1;
    }
    assert(key@ =~= bytes@);
    Ok(key)
}

/// The bytes whose base64 text is `t`, if there are any.
pub open spec fn choose_decoded(t: Seq<char>) -> Option<Seq<u8>> {
    if exists|b: Seq<u8>| #[trigger] base64_text(b) == t {
        Some(choose|b: Seq<u8>| #[trigger] base64_text(b) == t)
    } else {
        None
    }
}

/// `p` holds `api_key` sealed under `key`: its ciphertext is the base64 text of the AES-GCM
/// sealing of the key's UTF-8 bytes under `key` and the nonce whose base64 text `p` holds.
pub open spec fn seals(key: Seq<u8>, p: StoredProvider, api_key: Seq<char>) -> bool {
    exists|n: Seq<u8>| #[trigger] base64_text(n) == p.nonce@
        && p.ciphertext@ == base64_text(aes_gcm_seal(key, n, encode_utf8(api_key)))
}

/// Decrypts a stored credential's API key under `key`: gives back exactly the API key the
/// credential seals under `key` (of every key short enough to seal), and fails on any
/// credential that seals none.
pub fn decrypt_provider(key: &[u8; 32], provider: &StoredProvider) -> (r: Result<String, String>)
    requires
        nonce_well_formed(*provider),
    ensures
        r matches Ok(s) ==> seals(key@, *provider, s@),
        forall|s: Seq<char>| #[trigger] seals(key@, *provider, s) && sealable(s) ==> (r matches Ok(t) && t@ == s),
{
    let nonce = match base64_decode(provider.nonce.as_str()) {
        Ok(b) => b,
        Err(m) => {
            return Err(m);
        },
    };
    let cipher = match base64_decode(provider.ciphertext.as_str()) {
        Ok(b) => b,
        Err(m) => {
            return Err(m);
        },
    };
    proof {
        assert forall|s: Seq<char>| #[trigger] seals(key@, *provider, s) implies
            cipher@ == aes_gcm_seal(key@, nonce@, encode_utf8(s)) by {
            let n = choose|n: Seq<u8>| #[trigger] base64_text(n) == provider.nonce@
                && provider.ciphertext@ == base64_text(aes_gcm_seal(key@, n, encode_utf8(s)));
            assert(n == nonce@);
        }
    }
    let plain = match aes_gcm_decrypt(key, nonce.as_slice(), cipher.as_slice()) {
        Ok(p) => p,
        Err(()) => {
            proof {
                assert forall|s: Seq<char>| #[trigger] seals(key@, *provider, s) && sealable(s) implies false by {
                    assert(aes_gcm_seal(key@, nonce@, encode_utf8(s)) == cipher@);
                }
            }
            return Err(copy_text("provider decryption failed"));
        },
    };
    let ghost pb = plain@;
    proof {
        assert forall|s: Seq<char>| #[trigger] seals(key@, *provider, s) && sealable(s) implies pb == encode_utf8(s) by {
            assert(aes_gcm_seal(key@, nonce@, encode_utf8(s)) == cipher@);
        }
    }
    let text = match utf8_text(plain) {
        Ok(t) => t,
        Err(m) => {
            proof {
                assert forall|s: Seq<char>| #[trigger] seals(key@, *provider, s) && sealable(s) implies false by {
                    encode_utf8_valid_utf8(s);
                }
            }
            return Err(m);
        },
    };
    proof {
        vstd::utf8::decode_utf8_encode_utf8(pb);
        assert(base64_text(cipher@) == provider.ciphertext@);
        assert(base64_text(nonce@) == provider.nonce@);
        assert forall|s: Seq<char>| #[trigger] seals(key@, *provider, s) && sealable(s) implies text@ == s by {
            encode_utf8_decode_utf8(s);
        }
    }
    Ok(text)
}

impl HubStore {
    /// The accounts of the credentials that have not been revoked.
    pub fn active_accounts(&self) -> (r: Vec<ProviderAccount>)
        ensures
            r@ == active_accounts_of(self.providers@),
    {
        let mut out: Vec<ProviderAccount> = Vec::new();
        let mut i: usize = 0;
        while i < self.providers.len()
            invariant
                i <= self.providers@.len(),
                out@ == active_accounts_of(self.providers@.subrange(0, i as int)),
            decreases self.providers@.len() - i,
        {
            proof {
                assert(self.providers@.subrange(0, i + 1).drop_last() =~= self.providers@.subrange(0, i as int));
            }
            if self.providers[i].account.revoked_at.is_none() {
                out.push(self.providers[i].account.clone());
            }
            i = i + 1;
        }
        assert(self.providers@.subrange(0, self.providers@.len() as int) =~= self.providers@);
        out
    }

    /// Stores a credential, replacing any earlier credential for the same provider and label.
    pub fn set_provider(&mut self, stored: StoredProvider)
        requires
            providers_wf(old(self).providers@),
            nonce_well_formed(stored),
        ensures
            final(self).providers@ == other_providers(old(self).providers@, stored.account.provider_id@, stored.account.label@).push(stored),
            providers_wf(final(self).providers@),
            final(self).spokes == old(self).spokes,
            final(self).snapshots == old(self).snapshots,
            final(self).owner_token_hash == old(self).owner_token_hash,
    {
        let ghost before = self.providers@;
        let mut rest: Vec<StoredProvider> = Vec::new();
        std::mem::swap(&mut rest, &mut self.providers);
        let mut kept: Vec<StoredProvider> = Vec::new();
        let mut taken: usize = 0;
        assert(rest@ == before);
        assert(before.len() == rest.len());
        while rest.len() > 0
            invariant
                taken + rest@.len() == before.len(),
                before.len() <= usize::MAX,
                rest@ == before.subrange(taken as int, before.len() as int),
                kept@ == other_providers(before.subrange(0, taken as int), stored.account.provider_id@, stored.account.label@),
                providers_wf(before),
                providers_wf(kept@),
            decreases rest.len(),
        {
            let p = rest.remove(0);
            assert(p == before[taken as int]);
            proof {
                assert(before.subrange(0, taken + 1).drop_last() =~= before.subrange(0, taken as int));
            }
            if !text_eq(&p.account.provider_id, &stored.account.provider_id) || !text_eq(&p.account.label, &stored.account.label) {
                kept.push(p);
            }
            taken = taken + 1;
            assert(rest@ =~= before.subrange(taken as int, before.len() as int));
        }
        assert(before.subrange(0, taken as int) =~= before);
        kept.push(stored);
        self.providers = kept;
    }

    /// Revokes the credential with account identifier `id` at `now`; an unknown identifier is an error.
    pub fn revoke_provider(&mut self, id: &str, now: u64) -> (r: Result<(), String>)
        requires
            providers_wf(old(self).providers@),
        ensures
            providers_wf(final(self).providers@),
            final(self).spokes == old(self).spokes,
            final(self).snapshots == old(self).snapshots,
            final(self).owner_token_hash == old(self).owner_token_hash,
            match account_index(old(self).providers@, id@) {
                None => r matches Err(m) && m@ == "provider account not found"@ && final(self).providers@ == old(self).providers@,
                Some(i) => {
                    let o = old(self).providers@[i];
                    &&& r is Ok
                    &&& 0 <= i < old(self).providers@.len()
                    &&& final(self).providers@ == old(self).providers@.update(i, StoredProvider {
                        account: ProviderAccount { revoked_at: Some(now), ..o.account },
                        ..o
                    })
                },
            },
    {
        let mut i: usize = 0;
        while i < self.providers.len()
            invariant
                i <= self.providers@.len(),
                self.providers@ == old(self).providers@,
                providers_wf(self.providers@),
                self.spokes == old(self).spokes,
                self.snapshots == old(self).snapshots,
                self.owner_token_hash == old(self).owner_token_hash,
                forall|j: int| 0 <= j < i ==> (#[trigger] self.providers@[j]).account.provider_account_id@ != id@,
            decreases self.providers@.len() - i,
        {
            if str_eq(self.providers[i].account.provider_account_id.as_str(), id) {
                let ghost before = self.providers@;
                proof {
                    let c = choose|k: int| 0 <= k < before.len() && #[trigger] before[k].account.provider_account_id@ == id@
                        && forall|j: int| 0 <= j < k ==> before[j].account.provider_account_id@ != id@;
                    assert(c == i) by {
                        if c < i {
                        } else if c > i {
                            assert(before[i as int].account.provider_account_id@ == id@);
                        }
                    }
                }
                self.providers[i].account.revoked_at = Some(now);
                assert(self.providers@ =~= before.update(i as int, StoredProvider {
                    account: ProviderAccount { revoked_at: Some(now), ..before[i as int].account },
                    ..before[i as int]
                }));
                proof {
                    assert forall|j: int| 0 <= j < self.providers@.len() implies nonce_well_formed(#[trigger] self.providers@[j]) by {
                        assert(nonce_well_formed(before[j]));
                    }
                }
                return Ok(());
            }
            i = i + 1;
        }
        Err(copy_text("provider account not found"))
    }
}

/// The default provider of project `project` on spoke `spoke`, as last reported.
pub open spec fn project_default_provider(store: HubStore, spoke: Seq<char>, project: Seq<char>) -> Option<Seq<char>> {
    match spoke_entry(store, spoke) {
        Some(e) => match lookup(e.projects@, (project, Seq::empty())) {
            Some(p) => match p.default_provider {
                Some(d) => Some(d@),
                None => None,
            },
            None => None,
        },
        None => None,
    }
}

/// A credential for `provider_id` that has not been revoked.
pub open spec fn is_active_credential(p: StoredProvider, provider_id: Seq<char>) -> bool {
    p.account.provider_id@ == provider_id && p.account.revoked_at is None
}

/// The position of the first active credential for `provider_id`.
pub open spec fn active_credential(ps: Seq<StoredProvider>, provider_id: Seq<char>) -> Option<int> {
    if exists|i: int| 0 <= i < ps.len() && #[trigger] is_active_credential(ps[i], provider_id) {
        Some(choose|i: int| 0 <= i < ps.len() && #[trigger] is_active_credential(ps[i], provider_id)
            && forall|j: int| 0 <= j < i ==> !is_active_credential(ps[j], provider_id))
    } else {
        None
    }
}

/// The environment a command for `project` on `spoke` runs with: the decrypted API key of the
/// project's default provider, under that provider's variable, or nothing when the command names
/// no project or the project has no default provider.
pub fn provider_env_for_request(store: &HubStore, spoke: &SpokeId, project: Option<&ProjectId>, key: &[u8; 32]) -> (r: Result<Vec<(String, String)>, String>)
    requires
        store_wf(*store),
        providers_wf(store.providers@),
    ensures
        match project {
            None => r matches Ok(v) && v@.len() == 0,
            Some(pid) => match project_default_provider(*store, spoke@, pid@) {
                None => r matches Ok(v) && v@.len() == 0,
                Some(provider) => match active_credential(store.providers@, provider) {
                    None => r matches Err(m) && m@ == "no active credential for provider "@ + provider,
                    Some(i) => match provider_env_var(provider) {
                        None => r matches Err(m) && m@ == "unsupported provider "@ + provider,
                        Some(var) => {
                            &&& r matches Ok(v) ==> {
                                &&& v@.len() == 1
                                &&& v@[0].0@ == var
                                &&& seals(key@, store.providers@[i], v@[0].1@)
                            }
                            &&& forall|s: Seq<char>| #[trigger] seals(key@, store.providers@[i], s) && sealable(s)
                                ==> (r matches Ok(v) && v@.len() == 1 && v@[0].0@ == var && v@[0].1@ == s)
                        },
                    },
                },
            },
        },
{
    let pid = match project {
        None => {
            return Ok(Vec::new());
        },
        Some(p) => p,
    };
    proof {
        reveal_strlit("");
        assert(""@ =~= Seq::<char>::empty());
    }
    let provider_id: &str = match find(&store.spokes, spoke.as_str(), "") {
        None => {
            return Ok(Vec::new());
        },
        Some(si) => match find(&store.spokes[si].projects, pid.as_str(), "") {
            None => {
                return Ok(Vec::new());
            },
            Some(pi) => match &store.spokes[si].projects[pi].default_provider {
                None => {
                    return Ok(Vec::new());
                },
                Some(d) => d.as_str(),
            },
        },
    };
    let mut i: usize = 0;
    while i < store.providers.len()
        invariant
            i <= store.providers@.len(),
            project == Some(pid),
            providers_wf(store.providers@),
            project_default_provider(*store, spoke@, pid@) == Some(provider_id@),
            forall|j: int| 0 <= j < i ==> !is_active_credential(#[trigger] store.providers@[j], provider_id@),
        decreases store.providers@.len() - i,
    {
        if str_eq(store.providers[i].account.provider_id.as_str(), provider_id)
            && store.providers[i].account.revoked_at.is_none() {
            proof {
                let ps = store.providers@;
                assert(0 <= i < ps.len() && is_active_credential(ps[i as int], provider_id@)
                    && forall|j: int| 0 <= j < i ==> !is_active_credential(ps[j], provider_id@));
                let c = choose|k: int| 0 <= k < ps.len() && #[trigger] is_active_credential(ps[k], provider_id@)
                    && forall|j: int| 0 <= j < k ==> !is_active_credential(ps[j], provider_id@);
                assert(c == i) by {
                    if c > i {
                        assert(is_active_credential(ps[i as int], provider_id@));
                    }
                }
            }
            let name = provider_env_name(provider_id)?;
            let secret = decrypt_provider(key, &store.providers[i])?;
            let mut env: Vec<(String, String)> = Vec::new();
            env.push((copy_text(name), secret));
            return Ok(env);
        }
        i = i + 1;
    }
    Err(concat("no active credential for provider ", provider_id))
}

} // verus!
