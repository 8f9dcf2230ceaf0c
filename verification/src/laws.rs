//! Properties that hold across the operations of the dialog and the router.

use vstd::prelude::*;

use crate::dialog::{DialogView, FreeModeField, mask_char, masked};
use crate::provider::{
    combined_health, fallback_model, is_auto_alias, is_user_fixable, openrouter_free_model, opencode_zen_prefix,
    pins_zen, primary_model, reports_healthy, zen_default_model, zen_prefix, ProviderError,
    ProviderStatus,
};
use crate::text::{is_white_space, trim_end_seq, trim_seq, trim_start_seq};

verus! {

proof fn lemma_trim_start(s: Seq<char>) -> (k: int)
    ensures
        0 <= k <= s.len(),
        trim_start_seq(s) == s.skip(k),
        forall|i: int| 0 <= i < k ==> is_white_space(#[trigger] s[i]),
        k < s.len() ==> !is_white_space(s[k]),
    decreases s.len(),
{
    if s.len() > 0 && is_white_space(s[0]) {
        let k0 = lemma_trim_start(s.drop_first());
        assert(s.drop_first().skip(k0) =~= s.skip(k0 + 1));
        assert forall|i: int| 0 <= i < k0 + 1 implies is_white_space(#[trigger] s[i]) by {
            if i > 0 {
                assert(s[i] == s.drop_first()[i - 1]);
            }
        }
        k0 + 1
    } else {
        assert(s.skip(0) =~= s);
        0
    }
}

proof fn lemma_trim_end(s: Seq<char>) -> (b: int)
    ensures
        0 <= b <= s.len(),
        trim_end_seq(s) == s.take(b),
        forall|i: int| b <= i < s.len() ==> is_white_space(#[trigger] s[i]),
        b > 0 ==> !is_white_space(s[b - 1]),
    decreases s.len(),
{
    if s.len() > 0 && is_white_space(s.last()) {
        let b0 = lemma_trim_end(s.drop_last());
        assert(s.drop_last().take(b0) =~= s.take(b0));
        assert forall|i: int| b0 <= i < s.len() implies is_white_space(#[trigger] s[i]) by {
            if i < s.len() - 1 {
                assert(s[i] == s.drop_last()[i]);
            }
        }
        b0
    } else {
        assert(s.take(s.len() as int) =~= s);
        s.len() as int
    }
}

/// Trimming removes white space at both ends and nothing else: the result is
/// the part of `s` between a run of leading and a run of trailing white
/// space, and it neither starts nor ends with white space.
pub proof fn trim_removes_only_outer_white_space(s: Seq<char>)
    ensures
        exists|a: int, b: int|
            {
                &&& 0 <= a <= b <= s.len()
                &&& trim_seq(s) == s.subrange(a, b)
                &&& forall|i: int| 0 <= i < a ==> is_white_space(#[trigger] s[i])
                &&& forall|i: int| b <= i < s.len() ==> is_white_space(#[trigger] s[i])
                &&& a < b ==> !is_white_space(s[a]) && !is_white_space(s[b - 1])
            },
{
    let a = lemma_trim_start(s);
    let t = s.skip(a);
    let c = lemma_trim_end(t);
    let b = a + c;
    assert(t.take(c) =~= s.subrange(a, b));
    assert forall|i: int| b <= i < s.len() implies is_white_space(#[trigger] s[i]) by {
        assert(s[i] == t[i - a]);
    }
    if a < b {
        assert(s[b - 1] == t[c - 1]);
    }
}

/// A key is blank after trimming exactly when every character of it is white space.
pub proof fn trimmed_empty_iff_all_white_space(s: Seq<char>)
    ensures
        trim_seq(s).len() == 0 <==> forall|i: int| 0 <= i < s.len() ==> is_white_space(#[trigger] s[i]),
{
    trim_removes_only_outer_white_space(s);
    let (a, b) = choose|a: int, b: int|
        {
            &&& 0 <= a <= b <= s.len()
            &&& trim_seq(s) == s.subrange(a, b)
            &&& forall|i: int| 0 <= i < a ==> is_white_space(#[trigger] s[i])
            &&& forall|i: int| b <= i < s.len() ==> is_white_space(#[trigger] s[i])
            &&& a < b ==> !is_white_space(s[a]) && !is_white_space(s[b - 1])
        };
    if trim_seq(s).len() == 0 {
        assert forall|i: int| 0 <= i < s.len() implies is_white_space(#[trigger] s[i]) by {
            if i >= a {
                assert(i >= b);
            }
        }
    }
}

/// The dialog can be submitted exactly when one of its keys holds a
/// character that is not white space.
pub proof fn can_submit_iff_some_key_not_blank(v: DialogView)
    ensures
        v.can_submit() <==> (exists|i: int| 0 <= i < v.zen_key.len() && !is_white_space(#[trigger] v.zen_key[i]))
            || (exists|i: int|
            0 <= i < v.openrouter_key.len() && !is_white_space(#[trigger] v.openrouter_key[i])),
{
    trimmed_empty_iff_all_white_space(v.zen_key);
    trimmed_empty_iff_all_white_space(v.openrouter_key);
}

/// Switching the field twice returns to the field that had the focus.
pub proof fn switch_field_twice_restores(v: DialogView)
    ensures
        v.switched().switched() == v,
{
}

/// Erasing right after typing a character restores the dialog.
pub proof fn backspace_undoes_insert(v: DialogView, c: char)
    ensures
        v.inserted(c).backspaced() == v,
{
    assert(v.zen_key.push(c).drop_last() =~= v.zen_key);
    assert(v.openrouter_key.push(c).drop_last() =~= v.openrouter_key);
}

/// Typing changes only the focused key, and leaves focus and visibility alone.
pub proof fn insert_changes_only_active_key(v: DialogView, c: char)
    ensures
        v.inserted(c).active_field == v.active_field,
        v.inserted(c).visible == v.visible,
        v.active_field == FreeModeField::ZenKey ==> v.inserted(c).openrouter_key == v.openrouter_key
            && v.inserted(c).zen_key == v.zen_key.push(c),
        v.active_field == FreeModeField::OpenRouterKey ==> v.inserted(c).zen_key == v.zen_key
            && v.inserted(c).openrouter_key == v.openrouter_key.push(c),
{
}

/// Opening focuses the Zen field exactly when no Zen key is known, and the
/// keys it was opened with come back trimmed when the dialog is submitted.
pub proof fn open_then_submit(zen: Seq<char>, openrouter: Seq<char>)
    ensures
        DialogView::opened(zen, openrouter).visible,
        (DialogView::opened(zen, openrouter).active_field == FreeModeField::ZenKey) <==> zen.len() == 0,
        DialogView::opened(zen, openrouter).values() == (trim_seq(zen), trim_seq(openrouter)),
{
}

/// A key of more than four characters is shown with one mask character per
/// character but the last four, which are shown as they are; a shorter
/// non-empty key is shown as it is.
pub proof fn mask_hides_all_but_last_four(s: Seq<char>)
    ensures
        s.len() > 0 ==> masked(s).len() == s.len(),
        0 < s.len() <= 4 ==> masked(s) == s,
        s.len() > 4 ==> forall|i: int| 0 <= i < s.len() - 4 ==> #[trigger] masked(s)[i] == mask_char(),
        s.len() > 4 ==> forall|i: int| s.len() - 4 <= i < s.len() ==> #[trigger] masked(s)[i] == s[i],
{
}

/// The synthetic aliases go to each upstream's default free model.
pub proof fn auto_alias_routing(m: Seq<char>)
    requires
        is_auto_alias(m),
    ensures
        primary_model(m) == zen_default_model(),
        fallback_model(m) == openrouter_free_model(),
{
}

/// A model pinned to Zen by either prefix is sent to Zen without the prefix,
/// and to OpenRouter as the generic free router.
pub proof fn zen_pinned_routing(id: Seq<char>)
    ensures
        primary_model(zen_prefix() + id) == id,
        fallback_model(zen_prefix() + id) == openrouter_free_model(),
        primary_model(opencode_zen_prefix() + id) == id,
        fallback_model(opencode_zen_prefix() + id) == openrouter_free_model(),
{
    reveal_strlit("zen/");
    reveal_strlit("opencode-zen/");
    reveal_strlit("free");
    reveal_strlit("free/auto");
    reveal_strlit("auto");
    let z = zen_prefix() + id;
    let o = opencode_zen_prefix() + id;
    assert(z[0] == 'z');
    assert(o[0] == 'o');
    assert(z != "free"@ && z != "free/auto"@ && z != "auto"@) by {
        assert("free"@[0] == 'f' && "free/auto"@[0] == 'f' && "auto"@[0] == 'a');
    }
    assert(o != "free"@ && o != "free/auto"@ && o != "auto"@) by {
        assert("free"@[0] == 'f' && "free/auto"@[0] == 'f' && "auto"@[0] == 'a');
    }
    assert(zen_prefix() =~= z.subrange(0, zen_prefix().len() as int));
    assert(z.skip(zen_prefix().len() as int) =~= id);
    assert(opencode_zen_prefix() =~= o.subrange(0, opencode_zen_prefix().len() as int));
    assert(!zen_prefix().is_prefix_of(o)) by {
        assert(o.subrange(0, 4)[0] == 'o');
    }
    assert(o.skip(opencode_zen_prefix().len() as int) =~= id);
}

/// Whatever the caller asked for, the model sent to OpenRouter is never a
/// Zen-pinned one.
pub proof fn fallback_never_pins_zen(m: Seq<char>)
    ensures
        !pins_zen(fallback_model(m)),
{
    reveal_strlit("openrouter/free");
    reveal_strlit("zen/");
    reveal_strlit("opencode-zen/");
    if is_auto_alias(m) || pins_zen(m) {
        let f = openrouter_free_model();
        assert(f.subrange(0, 4)[0] == 'o');
        assert(f.subrange(0, 13)[4] == 'r');
        assert(!zen_prefix().is_prefix_of(f));
        assert(!opencode_zen_prefix().is_prefix_of(f));
    }
}

/// A model that is neither an alias nor pinned to Zen reaches both
/// upstreams unchanged.
pub proof fn plain_model_passes_through(m: Seq<char>)
    requires
        !is_auto_alias(m),
        !pins_zen(m),
    ensures
        primary_model(m) == m,
        fallback_model(m) == m,
{
}

/// The composite reports healthy exactly when one of its upstreams does.
pub proof fn healthy_iff_one_upstream_healthy(
    p: Result<ProviderStatus, ProviderError>,
    f: Result<ProviderStatus, ProviderError>,
)
    ensures
        reports_healthy(combined_health(p, f)) <==> reports_healthy(p) || reports_healthy(f),
{
}


/// `t` is `s` with a run of leading and a run of trailing white space cut
/// off, and `t` neither starts nor ends with white space.
pub open spec fn is_trimmed_part(t: Seq<char>, s: Seq<char>) -> bool {
    exists|a: int, b: int|
        {
            &&& 0 <= a <= b <= s.len()
            &&& t == s.subrange(a, b)
            &&& forall|i: int| 0 <= i < a ==> is_white_space(#[trigger] s[i])
            &&& forall|i: int| b <= i < s.len() ==> is_white_space(#[trigger] s[i])
            &&& a < b ==> !is_white_space(s[a]) && !is_white_space(s[b - 1])
        }
}

/// Submitting hands out the Zen buffer first and the OpenRouter buffer
/// second, each with only white space removed at its ends, whichever field
/// has the focus.
pub proof fn submitted_values_are_trimmed_buffers(v: DialogView, focus: FreeModeField)
    ensures
        is_trimmed_part(v.values().0, v.zen_key),
        is_trimmed_part(v.values().1, v.openrouter_key),
        (DialogView { active_field: focus, ..v }).values() == v.values(),
{
    trim_removes_only_outer_white_space(v.zen_key);
    trim_removes_only_outer_white_space(v.openrouter_key);
}

/// Switching always moves the focus to the other field and changes nothing else.
pub proof fn switch_moves_focus(v: DialogView)
    ensures
        v.switched().active_field != v.active_field,
        v.switched().visible == v.visible,
        v.switched().zen_key == v.zen_key,
        v.switched().openrouter_key == v.openrouter_key,
{
}

/// Erasing never touches the unfocused key, changes nothing when the focused
/// key is empty, and otherwise drops exactly the focused key's last character.
pub proof fn backspace_edits_only_focused_key(v: DialogView)
    ensures
        v.backspaced().active_field == v.active_field,
        v.backspaced().visible == v.visible,
        v.active_field == FreeModeField::ZenKey ==> v.backspaced().openrouter_key == v.openrouter_key,
        v.active_field == FreeModeField::OpenRouterKey ==> v.backspaced().zen_key == v.zen_key,
        v.active_field == FreeModeField::ZenKey && v.zen_key.len() == 0 ==> v.backspaced() == v,
        v.active_field == FreeModeField::OpenRouterKey && v.openrouter_key.len() == 0
            ==> v.backspaced() == v,
        v.active_field == FreeModeField::ZenKey && v.zen_key.len() > 0 ==> v.backspaced().zen_key
            == v.zen_key.subrange(0, v.zen_key.len() - 1),
        v.active_field == FreeModeField::OpenRouterKey && v.openrouter_key.len() > 0
            ==> v.backspaced().openrouter_key == v.openrouter_key.subrange(
            0,
            v.openrouter_key.len() - 1,
        ),
{
}

/// Authentication failures, rate limits and server errors of every status
/// are retried on the fallback; invalid and filtered requests never are.
pub proof fn fallback_decision_by_error_kind(e: ProviderError)
    ensures
        e is AuthFailed ==> !is_user_fixable(e),
        e is RateLimited ==> !is_user_fixable(e),
        e is ServerError ==> !is_user_fixable(e),
        e is InvalidRequest ==> is_user_fixable(e),
        e is ContentFiltered ==> is_user_fixable(e),
{
}

/// Only a healthy status counts as healthy: no error and no degraded or
/// unavailable status does.
pub proof fn only_healthy_status_counts(e: ProviderError, reason: String)
    ensures
        reports_healthy(Ok(ProviderStatus::Healthy)),
        !reports_healthy(Err(e)),
        !reports_healthy(Ok(ProviderStatus::Degraded { reason })),
        !reports_healthy(Ok(ProviderStatus::Unavailable { reason })),
{
}

/// The composite is healthy whenever either upstream is; otherwise it
/// reports the primary's status when the primary answered, and the
/// fallback's answer when it did not.
pub proof fn health_answer_by_cases(
    p: Result<ProviderStatus, ProviderError>,
    f: Result<ProviderStatus, ProviderError>,
)
    ensures
        (p matches Ok(ProviderStatus::Healthy) || f matches Ok(ProviderStatus::Healthy))
            ==> combined_health(p, f) matches Ok(ProviderStatus::Healthy),
        !(p matches Ok(ProviderStatus::Healthy)) && !(f matches Ok(ProviderStatus::Healthy)) && p is Ok
            ==> combined_health(p, f) == p,
        p is Err && !(f matches Ok(ProviderStatus::Healthy)) ==> combined_health(p, f) == f,
{
}

} // verus!
