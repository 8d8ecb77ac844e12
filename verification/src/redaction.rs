//! Redaction of what a node writes to its audit and diagnostic logs: secrets, commands, output
//! and paths never reach a log file.

use vstd::prelude::*;
use crate::json::{JsonValue, JsonView, items_view, members_view};
use crate::text::{str_eq, copy_text};

verus! {

/// The text that stands in for a redacted value.
pub open spec fn redacted_text() -> Seq<char> {
    "<redacted>"@
}

/// `c` in ASCII lowercase.
pub open spec fn ascii_lower(c: char) -> char {
    if 'A' <= c && c <= 'Z' {
        ((c as u32) + 32) as char
    } else {
        c
    }
}

/// `s` holds `secret` in any ASCII case.
pub open spec fn mentions_secret(s: Seq<char>) -> bool {
    exists|i: int| 0 <= i && i + 6 <= s.len() && #[trigger] secret_at(s, i)
}

pub open spec fn secret_at(s: Seq<char>, i: int) -> bool {
    &&& ascii_lower(s[i]) == 's'
    &&& ascii_lower(s[i + 1]) == 'e'
    &&& ascii_lower(s[i + 2]) == 'c'
    &&& ascii_lower(s[i + 3]) == 'r'
    &&& ascii_lower(s[i + 4]) == 'e'
    &&& ascii_lower(s[i + 5]) == 't'
}

/// Member names whose values never reach a log.
pub open spec fn is_sensitive_key(k: Seq<char>) -> bool {
    k == "provider_env"@ || k == "api_key"@ || k == "token"@ || k == "setup_key"@
        || k == "authorization"@ || k == "message"@ || k == "command"@ || k == "stdout"@
        || k == "stderr"@ || k == "cwd"@ || k == "path"@ || k == "args"@ || mentions_secret(k)
}

/// A document with the value of every sensitive member, at any depth, replaced by `<redacted>`.
pub open spec fn redact_view(v: JsonView) -> JsonView
    decreases v, 1int,
{
    match v {
        JsonView::Array(xs) => JsonView::Array(redact_items(xs)),
        JsonView::Object(ms) => JsonView::Object(redact_members(ms)),
        _ => v,
    }
}

pub open spec fn redact_items(xs: Seq<JsonView>) -> Seq<JsonView>
    decreases xs, 0int,
{
    if xs.len() == 0 {
        Seq::empty()
    } else {
        proof {
            assert(decreases_to!(xs => xs.drop_last()));
            assert(decreases_to!(xs => xs[xs.len() - 1]));
        }
        redact_items(xs.drop_last()).push(redact_view(xs.last()))
    }
}

pub open spec fn redact_members(ms: Seq<(Seq<char>, JsonView)>) -> Seq<(Seq<char>, JsonView)>
    decreases ms, 0int,
{
    if ms.len() == 0 {
        Seq::empty()
    } else {
        proof {
            assert(decreases_to!(ms => ms.drop_last()));
            assert(decreases_to!(ms => ms[ms.len() - 1]));
            assert(decreases_to!(ms[ms.len() - 1] => ms[ms.len() - 1].1));
        }
        let (k, v) = ms.last();
        redact_members(ms.drop_last()).push(
            (k, if is_sensitive_key(k) {
                JsonView::Str(redacted_text())
            } else {
                redact_view(v)
            }),
        )
    }
}

pub open spec fn json_view_of(v: JsonValue) -> JsonView {
    v@
}

/// Whether a member name mentions `secret` in any ASCII case.
fn mentions_secret_text(k: &str) -> (r: bool)
    ensures
        r == mentions_secret(k@),
{
    let n = k.unicode_len();
    if n < 6 {
        return false;
    }
    let mut i: usize = 0;
    while i <= n - 6
        invariant
            n == k@.len(),
            n >= 6,
            i <= n - 6 + 1,
            forall|j: int| 0 <= j < i ==> !#[trigger] secret_at(k@, j),
        decreases n - i,
    {
        if lower(k.get_char(i)) == 's' && lower(k.get_char(i + 1)) == 'e' && lower(k.get_char(i + 2)) == 'c'
            && lower(k.get_char(i + 3)) == 'r' && lower(k.get_char(i + 4)) == 'e' && lower(k.get_char(i + 5)) == 't' {
            assert(secret_at(k@, i as int));
            return true;
        }
        i = i + 1;
    }
    false
}

fn lower(c: char) -> (r: char)
    ensures
        r == ascii_lower(c),
{
    if 'A' <= c && c <= 'Z' {
        ((c as u8) + 32) as char
    } else {
        c
    }
}

/// Whether a member's value must not reach a log.
pub fn is_sensitive(k: &str) -> (r: bool)
    ensures
        r == is_sensitive_key(k@),
{
    str_eq(k, "provider_env") || str_eq(k, "api_key") || str_eq(k, "token") || str_eq(k, "setup_key")
        || str_eq(k, "authorization") || str_eq(k, "message") || str_eq(k, "command") || str_eq(k, "stdout")
        || str_eq(k, "stderr") || str_eq(k, "cwd") || str_eq(k, "path") || str_eq(k, "args")
        || mentions_secret_text(k)
}

/// Redacts a document for a log: the value of every member named in the list of sensitive names,
/// or whose name mentions `secret` in any case, becomes `<redacted>`, at any depth.
pub fn redact_sensitive_value(value: JsonValue) -> (r: JsonValue)
    ensures
        r@ == redact_view(value@),
    decreases value,
{
    match value {
        JsonValue::Array(xs) => {
            let ghost all = xs@;
            proof {
                assert forall|j: int| 0 <= j < all.len() implies decreases_to!(value => #[trigger] all[j]) by {
                    assert(decreases_to!(value => xs));
                    assert(decreases_to!(xs => xs@));
                    assert(decreases_to!(xs@ => xs@[j]));
                }
            }
            let mut rest = xs;
            let mut out: Vec<JsonValue> = Vec::new();
            let mut taken: usize = 0;
            assert(all.len() == rest.len());
            while rest.len() > 0
                invariant
                    taken + rest@.len() == all.len(),
                    all.len() <= usize::MAX,
                    rest@ == all.subrange(taken as int, all.len() as int),
                    items_view(out@) == redact_items(items_view(all.subrange(0, taken as int))),
                    forall|j: int| 0 <= j < all.len() ==> decreases_to!(value => #[trigger] all[j]),
                decreases rest.len(),
            {
                let x = rest.remove(0);
                assert(x == all[taken as int]);
                let ghost before = out@;
                let rx = redact_sensitive_value(x);
                out.push(rx);
                proof {
                    assert(out@.drop_last() == before);
                    let p0 = all.subrange(0, taken as int);
                    let p1 = all.subrange(0, taken + 1);
                    assert(p1.drop_last() =~= p0);
                    assert(items_view(p1) == items_view(p0).push(json_view_of(x)));
                    assert(items_view(p1).drop_last() =~= items_view(p0));
                    assert(redact_items(items_view(p1)) == redact_items(items_view(p0)).push(redact_view(x@)));
                }
                taken = taken + 1;
                assert(rest@ =~= all.subrange(taken as int, all.len() as int));
            }
            assert(all.subrange(0, taken as int) =~= all);
            JsonValue::Array(out)
        },
        JsonValue::Object(ms) => {
            let ghost all = ms@;
            proof {
                assert forall|j: int| 0 <= j < all.len() implies decreases_to!(value => #[trigger] all[j].1) by {
                    assert(decreases_to!(value => ms));
                    assert(decreases_to!(ms => ms@));
                    assert(decreases_to!(ms@ => ms@[j]));
                    assert(decreases_to!(ms@[j] => ms@[j].1));
                }
            }
            let mut rest = ms;
            let mut out: Vec<(String, JsonValue)> = Vec::new();
            let mut taken: usize = 0;
            assert(all.len() == rest.len());
            while rest.len() > 0
                invariant
                    taken + rest@.len() == all.len(),
                    all.len() <= usize::MAX,
                    rest@ == all.subrange(taken as int, all.len() as int),
                    members_view(out@) == redact_members(members_view(all.subrange(0, taken as int))),
                    forall|j: int| 0 <= j < all.len() ==> decreases_to!(value => #[trigger] all[j].1),
                decreases rest.len(),
            {
                let (k, child) = rest.remove(0);
                assert((k, child) == all[taken as int]);
                let ghost before = out@;
                let v = if is_sensitive(k.as_str()) {
                    proof {
                        reveal_strlit("<redacted>");
                    }
                    JsonValue::Str(copy_text("<redacted>"))
                } else {
                    redact_sensitive_value(child)
                };
                out.push((k, v));
                proof {
                    assert(out@.drop_last() == before);
                    let p0 = all.subrange(0, taken as int);
                    let p1 = all.subrange(0, taken + 1);
                    assert(p1.drop_last() =~= p0);
                    assert(members_view(p1) == members_view(p0).push((k@, json_view_of(child))));
                    assert(members_view(p1).drop_last() =~= members_view(p0));
                    assert(members_view(p1).last() == (k@, json_view_of(child)));
                    assert(redact_members(members_view(p1)) == redact_members(members_view(p0)).push(
                        (k@, if is_sensitive_key(k@) { JsonView::Str(redacted_text()) } else { redact_view(child@) }),
                    ));
                    assert(v@ == (if is_sensitive_key(k@) { JsonView::Str(redacted_text()) } else { redact_view(child@) }));
                }
                taken = taken + 1;
                assert(rest@ =~= all.subrange(taken as int, all.len() as int));
            }
            assert(all.subrange(0, taken as int) =~= all);
            JsonValue::Object(out)
        },
        other => other,
    }
}

/// Redacting twice redacts no more than redacting once: a redacted document is left as it is.
pub proof fn lemma_redaction_idempotent(v: JsonView)
    ensures
        redact_view(redact_view(v)) == redact_view(v),
    decreases v, 1int,
{
    match v {
        JsonView::Array(xs) => {
            lemma_redact_items_idempotent(xs);
        },
        JsonView::Object(ms) => {
            lemma_redact_members_idempotent(ms);
        },
        _ => {},
    }
}

proof fn lemma_redact_items_idempotent(xs: Seq<JsonView>)
    ensures
        redact_items(redact_items(xs)) == redact_items(xs),
    decreases xs, 0int,
{
    if xs.len() > 0 {
        assert(decreases_to!(xs => xs.drop_last()));
        assert(decreases_to!(xs => xs[xs.len() - 1]));
        lemma_redact_items_idempotent(xs.drop_last());
        lemma_redaction_idempotent(xs.last());
        let r = redact_items(xs);
        assert(r.drop_last() =~= redact_items(xs.drop_last()));
        assert(redact_items(r) =~= r);
    }
}

proof fn lemma_redact_members_idempotent(ms: Seq<(Seq<char>, JsonView)>)
    ensures
        redact_members(redact_members(ms)) == redact_members(ms),
    decreases ms, 0int,
{
    if ms.len() > 0 {
        assert(decreases_to!(ms => ms.drop_last()));
        assert(decreases_to!(ms => ms[ms.len() - 1]));
        assert(decreases_to!(ms[ms.len() - 1] => ms[ms.len() - 1].1));
        lemma_redact_members_idempotent(ms.drop_last());
        lemma_redaction_idempotent(ms.last().1);
        let r = redact_members(ms);
        assert(r.drop_last() =~= redact_members(ms.drop_last()));
        assert(redact_members(r) =~= r);
    }
}

/// No value of a sensitive member survives, at any depth.
pub open spec fn nothing_sensitive(v: JsonView) -> bool
    decreases v, 1int,
{
    match v {
        JsonView::Array(xs) => nothing_sensitive_items(xs),
        JsonView::Object(ms) => nothing_sensitive_members(ms),
        _ => true,
    }
}

pub open spec fn nothing_sensitive_items(xs: Seq<JsonView>) -> bool
    decreases xs, 0int,
{
    if xs.len() == 0 {
        true
    } else {
        proof {
            assert(decreases_to!(xs => xs.drop_last()));
            assert(decreases_to!(xs => xs[xs.len() - 1]));
        }
        nothing_sensitive_items(xs.drop_last()) && nothing_sensitive(xs.last())
    }
}

pub open spec fn nothing_sensitive_members(ms: Seq<(Seq<char>, JsonView)>) -> bool
    decreases ms, 0int,
{
    if ms.len() == 0 {
        true
    } else {
        proof {
            assert(decreases_to!(ms => ms.drop_last()));
            assert(decreases_to!(ms => ms[ms.len() - 1]));
            assert(decreases_to!(ms[ms.len() - 1] => ms[ms.len() - 1].1));
        }
        &&& nothing_sensitive_members(ms.drop_last())
        &&& if is_sensitive_key(ms.last().0) {
            ms.last().1 == JsonView::Str(redacted_text())
        } else {
            nothing_sensitive(ms.last().1)
        }
    }
}

/// A redacted document holds `<redacted>` in place of the value of every sensitive member.
pub proof fn lemma_redaction_hides_sensitive(v: JsonView)
    ensures
        nothing_sensitive(redact_view(v)),
    decreases v, 1int,
{
    match v {
        JsonView::Array(xs) => {
            lemma_items_hide(xs);
        },
        JsonView::Object(ms) => {
            lemma_members_hide(ms);
        },
        _ => {},
    }
}

proof fn lemma_items_hide(xs: Seq<JsonView>)
    ensures
        nothing_sensitive_items(redact_items(xs)),
    decreases xs, 0int,
{
    if xs.len() > 0 {
        assert(decreases_to!(xs => xs.drop_last()));
        assert(decreases_to!(xs => xs[xs.len() - 1]));
        lemma_items_hide(xs.drop_last());
        lemma_redaction_hides_sensitive(xs.last());
        let r = redact_items(xs);
        assert(r.drop_last() =~= redact_items(xs.drop_last()));
    }
}

proof fn lemma_members_hide(ms: Seq<(Seq<char>, JsonView)>)
    ensures
        nothing_sensitive_members(redact_members(ms)),
    decreases ms, 0int,
{
    if ms.len() > 0 {
        assert(decreases_to!(ms => ms.drop_last()));
        assert(decreases_to!(ms => ms[ms.len() - 1]));
        assert(decreases_to!(ms[ms.len() - 1] => ms[ms.len() - 1].1));
        lemma_members_hide(ms.drop_last());
        lemma_redaction_hides_sensitive(ms.last().1);
        let r = redact_members(ms);
        assert(r.drop_last() =~= redact_members(ms.drop_last()));
    }
}

} // verus!
