use vstd::prelude::*;

use crate::constants::providers_ids;
use crate::models::provider::setting_of;
use crate::models::{ProviderSetting, ProviderSettingExtended};

verus! {

/// The settings of the providers, one per provider id.
pub struct ProviderSettingCache {
    provider_settings: Vec<ProviderSetting>,
}

/// No two settings share a provider id.
pub open spec fn unique_providers(s: Seq<ProviderSetting>) -> bool {
    forall|i: int, j: int| 0 <= i < s.len() && 0 <= j < s.len() && i != j ==> s[i].provider_id@
        != s[j].provider_id@
}

/// The settings of `s` keyed by provider id.
pub open spec fn by_provider(s: Seq<ProviderSetting>) -> Map<Seq<char>, ProviderSetting> {
    Map::new(
        |k: Seq<char>| exists|i: int| 0 <= i < s.len() && s[i].provider_id@ == k,
        |k: Seq<char>| s[choose|i: int| 0 <= i < s.len() && s[i].provider_id@ == k],
    )
}

/// The settings the locator returned, each stored under its provider id in turn, so that
/// a later setting of a provider replaces an earlier one.
pub open spec fn fresh_settings(fresh: Seq<ProviderSettingExtended>) -> Map<Seq<char>, ProviderSetting>
    decreases fresh.len(),
{
    if fresh.len() == 0 {
        Map::empty()
    } else {
        fresh_settings(fresh.drop_last()).insert(fresh.last().provider_id@, setting_of(fresh.last()))
    }
}

/// A setting that external quotes are asked from: active, and neither the internal
/// inventory nor the order book.
pub open spec fn is_active_external(s: ProviderSetting) -> bool {
    &&& s.active
    &&& s.provider_id@ != providers_ids::INTERNAL_INVENTORY@
    &&& s.provider_id@ != providers_ids::ORDER_BOOK@
}

proof fn lemma_by_provider_index(s: Seq<ProviderSetting>, i: int)
    requires
        unique_providers(s),
        0 <= i < s.len(),
    ensures
        by_provider(s).contains_key(s[i].provider_id@),
        by_provider(s)[s[i].provider_id@] == s[i],
{
    let k = s[i].provider_id@;
    assert(by_provider(s).contains_key(k));
    let j = choose|j: int| 0 <= j < s.len() && s[j].provider_id@ == k;
    assert(j == i);
}

proof fn lemma_by_provider_push(s: Seq<ProviderSetting>, x: ProviderSetting)
    requires
        unique_providers(s),
        !by_provider(s).contains_key(x.provider_id@),
    ensures
        unique_providers(s.push(x)),
        by_provider(s.push(x)) == by_provider(s).insert(x.provider_id@, x),
{
    let t = s.push(x);
    let k = x.provider_id@;
    assert forall|i: int| 0 <= i < s.len() implies s[i].provider_id@ != k by {
        lemma_by_provider_index(s, i);
    }
    assert(unique_providers(t));
    assert forall|q: Seq<char>| #[trigger] by_provider(t).contains_key(q) == by_provider(s).insert(
        k,
        x,
    ).contains_key(q) by {
        if by_provider(s).contains_key(q) {
            let i = choose|i: int| 0 <= i < s.len() && s[i].provider_id@ == q;
            assert(t[i].provider_id@ == q);
        }
        if q == k {
            assert(t[s.len() as int].provider_id@ == q);
        }
    }
    assert forall|q: Seq<char>| #[trigger] by_provider(t).contains_key(q) implies by_provider(t)[q]
        == by_provider(s).insert(k, x)[q] by {
        let i = choose|i: int| 0 <= i < t.len() && t[i].provider_id@ == q;
        lemma_by_provider_index(t, i);
        if i < s.len() {
            lemma_by_provider_index(s, i);
        }
    }
    assert(by_provider(t) =~= by_provider(s).insert(k, x));
}

proof fn lemma_by_provider_update(s: Seq<ProviderSetting>, i: int, x: ProviderSetting)
    requires
        unique_providers(s),
        0 <= i < s.len(),
        s[i].provider_id@ == x.provider_id@,
    ensures
        unique_providers(s.update(i, x)),
        by_provider(s.update(i, x)) == by_provider(s).insert(x.provider_id@, x),
{
    let t = s.update(i, x);
    let k = x.provider_id@;
    assert(unique_providers(t));
    assert forall|q: Seq<char>| #[trigger] by_provider(t).contains_key(q) == by_provider(s).insert(
        k,
        x,
    ).contains_key(q) by {
        if by_provider(s).contains_key(q) {
            let j = choose|j: int| 0 <= j < s.len() && s[j].provider_id@ == q;
            assert(t[j].provider_id@ == q);
        }
        if by_provider(t).contains_key(q) {
            let j = choose|j: int| 0 <= j < t.len() && t[j].provider_id@ == q;
            assert(s[j].provider_id@ == q);
        }
        if q == k {
            assert(t[i].provider_id@ == q);
        }
    }
    assert forall|q: Seq<char>| #[trigger] by_provider(t).contains_key(q) implies by_provider(t)[q]
        == by_provider(s).insert(k, x)[q] by {
        let j = choose|j: int| 0 <= j < t.len() && t[j].provider_id@ == q;
        lemma_by_provider_index(t, j);
        if j != i {
            lemma_by_provider_index(s, j);
        }
    }
    assert(by_provider(t) =~= by_provider(s).insert(k, x));
}

impl View for ProviderSettingCache {
    type V = Map<Seq<char>, ProviderSetting>;

    closed spec fn view(&self) -> Map<Seq<char>, ProviderSetting> {
        by_provider(self.provider_settings@)
    }
}

impl ProviderSettingCache {
    /// Validity: one setting per provider id.
    pub closed spec fn wf(&self) -> bool {
        unique_providers(self.provider_settings@)
    }

    /// Position of the setting of `provider_id`.
    fn position_of(&self, provider_id: &String) -> (r: Option<usize>)
        requires
            self.wf(),
        ensures
            match r {
                Some(i) => i < self.provider_settings@.len()
                    && self.provider_settings@[i as int].provider_id@ == provider_id@,
                None => !self@.contains_key(provider_id@),
            },
    {
        let mut i: usize = 0;
        while i < self.provider_settings.len()
            invariant
                i <= self.provider_settings.len(),
                forall|j: int| 0 <= j < i ==> self.provider_settings@[j].provider_id@ != provider_id@,
            decreases self.provider_settings.len() - i,
        {
            if self.provider_settings[i].provider_id == *provider_id {
                return Some(i);
            }
            i = i + 1;
        }
        proof {
            if self@.contains_key(provider_id@) {
                let j = choose|j: int| 0 <= j < self.provider_settings@.len()
                    && self.provider_settings@[j].provider_id@ == provider_id@;
                assert(self.provider_settings@[j].provider_id@ == provider_id@);
            }
        }
        None
    }

    /// Stores `setting` under its provider id, replacing the setting stored there.
    fn insert(&mut self, setting: ProviderSetting)
        requires
            old(self).wf(),
        ensures
            final(self).wf(),
            final(self)@ == old(self)@.insert(setting.provider_id@, setting),
    {
        let ghost before = self.provider_settings@;
        match self.position_of(&setting.provider_id) {
            Some(i) => {
                let ghost x = setting;
                self.provider_settings.set(i, setting);
                proof {
                    lemma_by_provider_update(before, i as int, x);
                }
            },
            None => {
                let ghost x = setting;
                self.provider_settings.push(setting);
                proof {
                    lemma_by_provider_push(before, x);
                }
            },
        }
    }

    /// The cache of the settings the locator returned (see [`fresh_settings`]).
    pub fn from_fresh_settings(fresh: Vec<ProviderSettingExtended>) -> (r: Self)
        ensures
            r.wf(),
            r@ == fresh_settings(fresh@),
    {
        let ghost all = fresh@;
        let fresh_len = fresh.len();
        assert(all.len() == fresh_len);
        let mut cache = ProviderSettingCache { provider_settings: Vec::new() };
        proof {
            assert(cache@ =~= Map::<Seq<char>, ProviderSetting>::empty());
            assert(all.take(0) =~= Seq::<ProviderSettingExtended>::empty());
        }
        let mut rest = fresh;
        let mut taken: usize = 0;
        while rest.len() > 0
            invariant
                cache.wf(),
                all.len() <= usize::MAX,
                taken + rest@.len() == all.len(),
                rest@ == all.skip(taken as int),
                cache@ == fresh_settings(all.take(taken as int)),
            decreases rest.len(),
        {
            let settings = rest.remove(0);
            proof {
                assert(settings == all[taken as int]);
                assert(all.take(taken + 1).drop_last() =~= all.take(taken as int));
                assert(all.take(taken + 1).last() == settings);
            }
            cache.insert(crate::models::provider::map(settings));
            taken = taken + 1;
            assert(rest@ =~= all.skip(taken as int));
        }
        proof {
            assert(all.take(taken as int) =~= all);
        }
        cache
    }

    /// Every setting, each once.
    pub fn get_all(&self) -> (r: Vec<ProviderSetting>)
        requires
            self.wf(),
        ensures
            forall|i: int| 0 <= i < r@.len() ==> self@.contains_key(#[trigger] r@[i].provider_id@)
                && self@[r@[i].provider_id@] == r@[i],
            forall|i: int, j: int| 0 <= i < j < r@.len() ==> r@[i].provider_id@ != r@[j].provider_id@,
            forall|k: Seq<char>| self@.contains_key(k) ==> exists|i: int|
                0 <= i < r@.len() && #[trigger] r@[i].provider_id@ == k,
    {
        let mut r: Vec<ProviderSetting> = Vec::new();
        let mut i: usize = 0;
        while i < self.provider_settings.len()
            invariant
                i <= self.provider_settings.len(),
                unique_providers(self.provider_settings@),
                r@ == self.provider_settings@.take(i as int),
            decreases self.provider_settings.len() - i,
        {
            r.push(self.provider_settings[i].clone());
            i = i + 1;
            assert(r@ =~= self.provider_settings@.take(i as int));
        }
        proof {
            let s = self.provider_settings@;
            assert(r@ =~= s);
            assert forall|i: int| 0 <= i < r@.len() implies self@.contains_key(
                #[trigger] r@[i].provider_id@,
            ) && self@[r@[i].provider_id@] == r@[i] by {
                lemma_by_provider_index(s, i);
            }
            assert forall|k: Seq<char>| self@.contains_key(k) implies exists|i: int|
                0 <= i < r@.len() && #[trigger] r@[i].provider_id@ == k by {
                let i = choose|i: int| 0 <= i < s.len() && s[i].provider_id@ == k;
                assert(r@[i].provider_id@ == k);
            }
        }
        r
    }

    /// The settings of the providers external quotes are asked from (see
    /// [`is_active_external`]), each once.
    pub fn get_active_external_query(&self) -> (r: Vec<ProviderSetting>)
        requires
            self.wf(),
        ensures
            forall|i: int| 0 <= i < r@.len() ==> self@.contains_key(#[trigger] r@[i].provider_id@)
                && self@[r@[i].provider_id@] == r@[i] && is_active_external(r@[i]),
            forall|i: int, j: int| 0 <= i < j < r@.len() ==> r@[i].provider_id@ != r@[j].provider_id@,
            forall|k: Seq<char>| self@.contains_key(k) && is_active_external(self@[k]) ==> exists|i: int|
                0 <= i < r@.len() && #[trigger] r@[i].provider_id@ == k,
    {
        let internal_inventory = String::from_str(providers_ids::INTERNAL_INVENTORY);
        let order_book = String::from_str(providers_ids::ORDER_BOOK);
        let mut r: Vec<ProviderSetting> = Vec::new();
        let ghost mut picked: Seq<int> = Seq::empty();
        let mut i: usize = 0;
        while i < self.provider_settings.len()
            invariant
                i <= self.provider_settings.len(),
                unique_providers(self.provider_settings@),
                internal_inventory@ == providers_ids::INTERNAL_INVENTORY@,
                order_book@ == providers_ids::ORDER_BOOK@,
                picked.len() == r@.len(),
                forall|a: int| 0 <= a < picked.len() ==> 0 <= #[trigger] picked[a] < i
                    && r@[a] == self.provider_settings@[picked[a]],
                forall|a: int, b: int| 0 <= a < b < picked.len() ==> picked[a] < picked[b],
                forall|j: int| 0 <= j < i && is_active_external(self.provider_settings@[j])
                    ==> exists|a: int| 0 <= a < picked.len() && #[trigger] picked[a] == j,
                forall|a: int| 0 <= a < r@.len() ==> is_active_external(#[trigger] r@[a]),
            decreases self.provider_settings.len() - i,
        {
            let ghost picked_before = picked;
            let x = &self.provider_settings[i];
            if x.active && x.provider_id != internal_inventory && x.provider_id != order_book {
                r.push(x.clone());
                proof {
                    picked = picked.push(i as int);
                }
            }
            proof {
                assert forall|j: int| 0 <= j < i + 1 && is_active_external(self.provider_settings@[j])
                    implies exists|a: int| 0 <= a < picked.len() && #[trigger] picked[a] == j by {
                    if j < i {
                        let a = choose|a: int| 0 <= a < picked_before.len() && #[trigger] picked_before[a] == j;
                        assert(picked[a] == j);
                    } else {
                        assert(picked[picked.len() - 1] == i);
                    }
                }
            }
            i = i + 1;
        }
        proof {
            let s = self.provider_settings@;
            assert forall|a: int| 0 <= a < r@.len() implies self@.contains_key(
                #[trigger] r@[a].provider_id@,
            ) && self@[r@[a].provider_id@] == r@[a] && is_active_external(r@[a]) by {
                lemma_by_provider_index(s, picked[a]);
            }
            assert forall|a: int, b: int| 0 <= a < b < r@.len() implies r@[a].provider_id@
                != r@[b].provider_id@ by {
                assert(picked[a] < picked[b]);
            }
            assert forall|k: Seq<char>| self@.contains_key(k) && is_active_external(self@[k]) implies exists|a: int|
                0 <= a < r@.len() && #[trigger] r@[a].provider_id@ == k by {
                let j = choose|j: int| 0 <= j < s.len() && s[j].provider_id@ == k;
                lemma_by_provider_index(s, j);
                let a = choose|a: int| 0 <= a < picked.len() && #[trigger] picked[a] == j;
                assert(r@[a].provider_id@ == k);
            }
        }
        r
    }

    /// The setting of `provider_id`, if there is one.
    pub fn get_provider_setting(&self, provider_id: String) -> (r: Option<ProviderSetting>)
        requires
            self.wf(),
        ensures
            r == (if self@.contains_key(provider_id@) {
                Some(self@[provider_id@])
            } else {
                None
            }),
    {
        match self.position_of(&provider_id) {
            Some(i) => {
                proof {
                    lemma_by_provider_index(self.provider_settings@, i as int);
                }
                Some(self.provider_settings[i].clone())
            },
            None => None,
        }
    }
}


/// The setting stored for a provider is the one the locator listed last for it: a
/// provider has a setting exactly when the list names it, and then it is the setting of
/// the last entry that names it.
pub proof fn lemma_last_listed_setting_wins(fresh: Seq<ProviderSettingExtended>, k: Seq<char>)
    ensures
        fresh_settings(fresh).contains_key(k) <==> exists|i: int|
            0 <= i < fresh.len() && #[trigger] fresh[i].provider_id@ == k,
        forall|i: int| 0 <= i < fresh.len() && fresh[i].provider_id@ == k && (forall|j: int|
            i < j < fresh.len() ==> #[trigger] fresh[j].provider_id@ != k) ==> fresh_settings(fresh)[k]
            == setting_of(#[trigger] fresh[i]),
    decreases fresh.len(),
{
    if fresh.len() > 0 {
        let init = fresh.drop_last();
        lemma_last_listed_setting_wins(init, k);
        if fresh_settings(fresh).contains_key(k) && fresh.last().provider_id@ != k {
            let i = choose|i: int| 0 <= i < init.len() && #[trigger] init[i].provider_id@ == k;
            assert(fresh[i].provider_id@ == k);
        }
        if exists|i: int| 0 <= i < fresh.len() && #[trigger] fresh[i].provider_id@ == k {
            let i = choose|i: int| 0 <= i < fresh.len() && #[trigger] fresh[i].provider_id@ == k;
            if i < init.len() {
                assert(init[i].provider_id@ == k);
            }
        }
        assert forall|i: int| 0 <= i < fresh.len() && fresh[i].provider_id@ == k && (forall|j: int|
            i < j < fresh.len() ==> #[trigger] fresh[j].provider_id@ != k) implies fresh_settings(fresh)[k]
            == setting_of(#[trigger] fresh[i]) by {
            if i < init.len() {
                assert(fresh[fresh.len() - 1].provider_id@ != k);
                assert forall|j: int| i < j < init.len() implies #[trigger] init[j].provider_id@ != k by {
                    assert(fresh[j].provider_id@ != k);
                }
                assert(init[i] == fresh[i]);
            }
        }
    }
}


} // verus!
