//! The value-level logic behind the editor settings controls: reading and
//! updating the ligature ("calt") entry of a font-feature list, and updating
//! the inline-git-blame settings record. The settings store itself and the
//! controls' rendering live outside the library and hand these functions
//! plain values.

use vstd::prelude::*;
use vstd::string::StringExecFns;

verus! {

/// One OpenType font-feature entry: a tag such as "calt" and its value
/// (0 or 1 for switchable features).
pub struct FontFeature {
    pub tag: String,
    pub value: u32,
}

/// The ligatures tag.
pub open spec fn calt_tag() -> Seq<char> {
    "calt"@
}

/// Position `i` holds the first "calt" entry of `s`.
pub open spec fn first_calt_at(s: Seq<FontFeature>, i: int) -> bool {
    &&& 0 <= i < s.len()
    &&& s[i].tag@ == calt_tag()
    &&& forall|j: int| 0 <= j < i ==> s[j].tag@ != calt_tag()
}

/// Some entry of `s` carries the "calt" tag.
pub open spec fn has_calt(s: Seq<FontFeature>) -> bool {
    exists|i: int| 0 <= i < s.len() && s[i].tag@ == calt_tag()
}

/// Whether ligatures are enabled under `s`: the first "calt" entry decides;
/// a list without one leaves them enabled.
pub open spec fn spec_calt_enabled(s: Seq<FontFeature>) -> bool
    decreases s.len(),
{
    if s.len() == 0 {
        true
    } else if s[0].tag@ == calt_tag() {
        s[0].value != 0
    } else {
        spec_calt_enabled(s.drop_first())
    }
}

/// Read whether ligatures are enabled from a font-feature list.
pub fn calt_enabled(features: &Vec<FontFeature>) -> (r: bool)
    ensures
        r == spec_calt_enabled(features@),
{
    let calt: String = String::from_str("calt");
    let mut i: usize = 0;
    assert(features@.skip(0) =~= features@);
    while i < features.len()
        invariant
            i <= features@.len(),
            calt@ == calt_tag(),
            spec_calt_enabled(features@) == spec_calt_enabled(features@.skip(i as int)),
        decreases features@.len() - i,
    {
        assert(features@.skip(i as int)[0] == features@[i as int]);
        if features[i].tag == calt {
            return features[i].value != 0;
        }
        assert(features@.skip(i as int).drop_first() =~= features@.skip(i as int + 1));
        i = i + 1;
    }
    assert(features@.skip(i as int).len() == 0);
    true
}

/// Relates a font-feature list before and after the ligature feature was set
/// to `enabled`: the first "calt" entry's value is overwritten in place, and
/// a list without one gets an entry appended; every other entry stays as it
/// was.
pub open spec fn calt_set(pre: Seq<FontFeature>, post: Seq<FontFeature>, enabled: bool) -> bool {
    let v: u32 = if enabled {
        1u32
    } else {
        0u32
    };
    if has_calt(pre) {
        exists|i: int|
            #[trigger] first_calt_at(pre, i) && post == pre.update(
                i,
                FontFeature { tag: pre[i].tag, value: v },
            )
    } else {
        &&& post.len() == pre.len() + 1
        &&& post.subrange(0, pre.len() as int) == pre
        &&& post.last().tag@ == calt_tag()
        &&& post.last().value == v
    }
}

/// Set the ligature feature in a font-feature list.
pub fn set_calt(features: &mut Vec<FontFeature>, enabled: bool)
    ensures
        calt_set(old(features)@, final(features)@, enabled),
{
    let v: u32 = if enabled { 1 } else { 0 };
    let calt: String = String::from_str("calt");
    let mut i: usize = 0;
    while i < features.len()
        invariant
            i <= features@.len(),
            calt@ == calt_tag(),
            v == (if enabled { 1u32 } else { 0u32 }),
            features@ == old(features)@,
            forall|j: int| 0 <= j < i ==> features@[j].tag@ != calt_tag(),
        decreases features@.len() - i,
    {
        if features[i].tag == calt {
            let tag = features[i].tag.clone();
            proof {
                assert(tag == old(features)@[i as int].tag);
            }
            features[i] = FontFeature { tag, value: v };
            proof {
                assert(has_calt(old(features)@));
                assert(first_calt_at(old(features)@, i as int) && features@ == old(
                    features,
                )@.update(i as int, FontFeature { tag: old(features)@[i as int].tag, value: v }));
            }
            return ;
        }
        i = i + 1;
    }
    assert(!has_calt(features@));
    features.push(FontFeature { tag: calt, value: v });
    proof {
        assert(features@.subrange(0, old(features)@.len() as int) =~= old(features)@);
    }
}

/// The first "calt" entry decides whether ligatures are enabled.
proof fn lemma_calt_enabled_at_first(s: Seq<FontFeature>, i: int)
    requires
        first_calt_at(s, i),
    ensures
        spec_calt_enabled(s) == (s[i].value != 0),
    decreases i,
{
    if i == 0 {
    } else {
        assert(s[0].tag@ != calt_tag());
        assert(first_calt_at(s.drop_first(), i - 1)) by {
            assert(s.drop_first()[i - 1] == s[i]);
            assert(forall|j: int|
                0 <= j < i - 1 ==> #[trigger] s.drop_first()[j].tag@ == s[j + 1].tag@);
        }
        lemma_calt_enabled_at_first(s.drop_first(), i - 1);
        assert(s.drop_first()[i - 1] == s[i]);
    }
}

/// A list without a "calt" entry leaves ligatures enabled.
pub proof fn lemma_calt_enabled_without_entry(s: Seq<FontFeature>)
    requires
        !has_calt(s),
    ensures
        spec_calt_enabled(s),
    decreases s.len(),
{
    if s.len() == 0 {
    } else {
        assert(s[0].tag@ != calt_tag());
        assert(!has_calt(s.drop_first())) by {
            if has_calt(s.drop_first()) {
                let j = choose|j: int|
                    0 <= j < s.drop_first().len() && s.drop_first()[j].tag@ == calt_tag();
                assert(s.drop_first()[j] == s[j + 1]);
            }
        }
        lemma_calt_enabled_without_entry(s.drop_first());
    }
}

/// Setting the ligature feature is observed by reading it back: after the
/// feature list was set to `enabled`, ligatures are enabled exactly when
/// `enabled` holds.
pub proof fn lemma_set_calt_read_back(pre: Seq<FontFeature>, post: Seq<FontFeature>, enabled: bool)
    requires
        calt_set(pre, post, enabled),
    ensures
        spec_calt_enabled(post) == enabled,
{
    let v: u32 = if enabled {
        1u32
    } else {
        0u32
    };
    if has_calt(pre) {
        let i = choose|i: int|
            #[trigger] first_calt_at(pre, i) && post == pre.update(
                i,
                FontFeature { tag: pre[i].tag, value: v },
            );
        assert(first_calt_at(post, i)) by {
            assert(post[i].tag@ == calt_tag());
            assert(forall|j: int| 0 <= j < i ==> #[trigger] post[j].tag@ == pre[j].tag@);
        }
        lemma_calt_enabled_at_first(post, i);
    } else {
        let n = pre.len() as int;
        assert(first_calt_at(post, n)) by {
            assert(post[n] == post.last());
            assert(forall|j: int| 0 <= j < n ==> #[trigger] post[j] == pre.subrange(0, n)[j]);
            assert(forall|j: int| 0 <= j < n ==> #[trigger] post[j].tag@ != calt_tag()) by {
                assert(forall|j: int| 0 <= j < n ==> #[trigger] post[j] == pre[j]);
            }
        }
        lemma_calt_enabled_at_first(post, n);
    }
}

/// The inline-git-blame settings record, as the settings file holds it.
pub struct InlineBlameSettings {
    pub enabled: bool,
}

/// Update the inline-git-blame settings with the control's new value: an
/// existing record gets its `enabled` flag set; where none exists yet, a
/// default record is created with the flag still off, so enabling starts
/// from a freshly written record.
pub fn apply_inline_blame(current: Option<InlineBlameSettings>, value: bool) -> (r:
    InlineBlameSettings)
    ensures
        match current {
            Some(s) => r == (InlineBlameSettings { enabled: value, ..s }),
            None => r == (InlineBlameSettings { enabled: false }),
        },
{
    match current {
        Some(s) => InlineBlameSettings { enabled: value, ..s },
        None => InlineBlameSettings { enabled: false },
    }
}

} // verus!
