//! Properties of merging, validation and drift detection, proved over the
//! models that the operations' contracts use.
use vstd::prelude::*;

use crate::cache::{drift_status, lookup, DriftStatus};
use crate::effective::{effective, AppModel};
use crate::layers::{
    first_unknown_feature, is_feature_name, layer_fault, verdict_matches, GlobalModel, LocalModel,
    ValidationError, ValidationFault, CONFIG_SCHEMA,
};
use crate::names::{dedup, lemma_dedup};
use crate::settings::{
    merge_ability_maps, merge_capability, merge_provider_maps_model, merge_vars, AbilityModel,
    CapabilityModel, ProvidersModel, Target, TargetsModel,
};

verus! {

/// Merging settings with empty settings, on either side, gives the settings
/// back.
pub proof fn lemma_capability_merge_identity(x: CapabilityModel)
    ensures
        x.merge(CapabilityModel::empty()) == x,
        CapabilityModel::empty().merge(x) == x,
{
}

/// Merging a provider's settings with empty settings, on either side, gives
/// them back.
pub proof fn lemma_ability_merge_identity(x: AbilityModel)
    ensures
        x.merge(AbilityModel::empty()) == x,
        AbilityModel::empty().merge(x) == x,
{
}

/// Merging target sets with a layer that sets no category, on either side,
/// gives them back; a category set to no names stays set.
pub proof fn lemma_targets_merge_identity(x: TargetsModel)
    ensures
        x.merge(TargetsModel::empty()) == x,
        TargetsModel::empty().merge(x) == x,
{
}

/// Merging providers with a layer that configures none, on either side,
/// gives them back; an empty category stays present.
pub proof fn lemma_providers_merge_identity(x: ProvidersModel)
    ensures
        x.merge(ProvidersModel::empty()) == x,
        ProvidersModel::empty().merge(x) == x,
{
}

/// A global layer merged with a local layer that sets nothing is the global
/// layer itself, with the default schema where it names none and its
/// feature list read as a set.
pub proof fn lemma_empty_local_layer(g: GlobalModel)
    ensures
        effective(g, LocalModel::empty()) == (AppModel {
            schema: match g.schema {
                Some(s) => s,
                None => CONFIG_SCHEMA@,
            },
            features: dedup(g.features),
            targets: match g.targets {
                Some(t) => t,
                None => TargetsModel::empty(),
            },
            providers: g.providers,
            variables: g.variables,
        }),
{
}

/// A local layer merged over a global layer that sets nothing is the local
/// layer itself.
pub proof fn lemma_empty_global_layer(l: LocalModel)
    ensures
        effective(
            GlobalModel {
                schema: None,
                features: Seq::empty(),
                targets: None,
                providers: None,
                variables: None,
            },
            l,
        ) == (AppModel {
            schema: match l.schema {
                Some(s) => s,
                None => CONFIG_SCHEMA@,
            },
            features: dedup(
                match l.features {
                    Some(fs) => fs,
                    None => Seq::empty(),
                },
            ),
            targets: match l.targets {
                Some(t) => t,
                None => TargetsModel::empty(),
            },
            providers: l.providers,
            variables: l.variables,
        }),
{
}

/// The effective features hold each name of the chosen list once: the
/// local list when the local layer has one, the global list otherwise.
pub proof fn lemma_effective_features_are_a_set(g: GlobalModel, l: LocalModel)
    ensures
        effective(g, l).features.no_duplicates(),
        effective(g, l).features.to_set() == match l.features {
            Some(fs) => fs,
            None => g.features,
        }.to_set(),
{
    lemma_dedup(
        match l.features {
            Some(fs) => fs,
            None => g.features,
        },
    );
}

proof fn lemma_vars_associative(
    a: Option<Map<Seq<char>, Seq<char>>>,
    b: Option<Map<Seq<char>, Seq<char>>>,
    c: Option<Map<Seq<char>, Seq<char>>>,
)
    ensures
        merge_vars(merge_vars(a, b), c) == merge_vars(a, merge_vars(b, c)),
{
    if a.is_some() && b.is_some() && c.is_some() {
        assert(a.unwrap().union_prefer_right(b.unwrap()).union_prefer_right(c.unwrap())
            =~= a.unwrap().union_prefer_right(b.unwrap().union_prefer_right(c.unwrap())));
    }
}

/// Merging settings is associative.
pub proof fn lemma_capability_merge_associative(a: CapabilityModel, b: CapabilityModel, c: CapabilityModel)
    ensures
        a.merge(b).merge(c) == a.merge(b.merge(c)),
{
    lemma_vars_associative(a.variables, b.variables, c.variables);
}

proof fn lemma_opt_capability_associative(
    a: Option<CapabilityModel>,
    b: Option<CapabilityModel>,
    c: Option<CapabilityModel>,
)
    ensures
        merge_capability(merge_capability(a, b), c) == merge_capability(a, merge_capability(b, c)),
{
    if a.is_some() && b.is_some() && c.is_some() {
        lemma_capability_merge_associative(a.unwrap(), b.unwrap(), c.unwrap());
    }
}

/// Merging a provider's settings is associative.
pub proof fn lemma_ability_merge_associative(a: AbilityModel, b: AbilityModel, c: AbilityModel)
    ensures
        a.merge(b).merge(c) == a.merge(b.merge(c)),
{
    lemma_opt_capability_associative(a.mcp, b.mcp, c.mcp);
    lemma_opt_capability_associative(a.instructions, b.instructions, c.instructions);
    lemma_opt_capability_associative(a.commands, b.commands, c.commands);
}

proof fn lemma_ability_maps_associative(
    a: Map<Seq<char>, AbilityModel>,
    b: Map<Seq<char>, AbilityModel>,
    c: Map<Seq<char>, AbilityModel>,
)
    ensures
        merge_ability_maps(merge_ability_maps(a, b), c) == merge_ability_maps(
            a,
            merge_ability_maps(b, c),
        ),
{
    let left = merge_ability_maps(merge_ability_maps(a, b), c);
    let right = merge_ability_maps(a, merge_ability_maps(b, c));
    assert forall|k: Seq<char>| #[trigger] left.contains_key(k) implies left[k] == right[k] by {
        if a.contains_key(k) && b.contains_key(k) && c.contains_key(k) {
            lemma_ability_merge_associative(a[k], b[k], c[k]);
        }
    }
    assert(left.dom() =~= right.dom());
    assert(left =~= right);
}

proof fn lemma_provider_maps_associative(
    a: Option<Map<Seq<char>, AbilityModel>>,
    b: Option<Map<Seq<char>, AbilityModel>>,
    c: Option<Map<Seq<char>, AbilityModel>>,
)
    ensures
        merge_provider_maps_model(merge_provider_maps_model(a, b), c) == merge_provider_maps_model(
            a,
            merge_provider_maps_model(b, c),
        ),
{
    if a.is_some() && b.is_some() && c.is_some() {
        lemma_ability_maps_associative(a.unwrap(), b.unwrap(), c.unwrap());
    }
}

/// Merging three provider layers left to right gives the same providers as
/// merging them right to left.
pub proof fn lemma_providers_merge_associative(a: ProvidersModel, b: ProvidersModel, c: ProvidersModel)
    ensures
        a.merge(b).merge(c) == a.merge(b.merge(c)),
{
    lemma_provider_maps_associative(a.ide, b.ide, c.ide);
    lemma_provider_maps_associative(a.cli, b.cli, c.cli);
    lemma_provider_maps_associative(a.custom, b.custom, c.custom);
}

/// In merged settings every field that the override sets has the
/// override's value, and so does every variable it names.
pub proof fn lemma_override_wins(base: CapabilityModel, over: CapabilityModel)
    ensures
        over.template.is_some() ==> base.merge(over).template == over.template,
        over.target.is_some() ==> base.merge(over).target == over.target,
        over.disabled.is_some() ==> base.merge(over).disabled == over.disabled,
        over.hash.is_some() ==> base.merge(over).hash == over.hash,
        forall|k: Seq<char>|
            over.variables.is_some() && #[trigger] over.variables.unwrap().contains_key(k) ==> base.merge(
                over,
            ).variables.unwrap().contains_key(k) && base.merge(over).variables.unwrap()[k]
                == over.variables.unwrap()[k],
{
}

/// Whether two optional provider maps share no provider name.
pub open spec fn names_disjoint(
    a: Option<Map<Seq<char>, AbilityModel>>,
    b: Option<Map<Seq<char>, AbilityModel>>,
) -> bool {
    match (a, b) {
        (Some(x), Some(y)) => x.dom().disjoint(y.dom()),
        _ => true,
    }
}

proof fn lemma_disjoint_maps_commute(
    a: Option<Map<Seq<char>, AbilityModel>>,
    b: Option<Map<Seq<char>, AbilityModel>>,
)
    requires
        names_disjoint(a, b),
    ensures
        merge_provider_maps_model(a, b) == merge_provider_maps_model(b, a),
{
    if a.is_some() && b.is_some() {
        let x = a.unwrap();
        let y = b.unwrap();
        assert(merge_ability_maps(x, y) =~= merge_ability_maps(y, x)) by {
            assert forall|k: Seq<char>| !(x.contains_key(k) && y.contains_key(k)) by {
                if x.contains_key(k) && y.contains_key(k) {
                    assert(x.dom().contains(k) && y.dom().contains(k));
                }
            }
        }
    }
}

/// Providers of two layers that name no provider in common, category by
/// category, merge to the same providers in either order.
pub proof fn lemma_disjoint_providers_commute(a: ProvidersModel, b: ProvidersModel)
    requires
        names_disjoint(a.ide, b.ide),
        names_disjoint(a.cli, b.cli),
        names_disjoint(a.custom, b.custom),
    ensures
        a.merge(b) == b.merge(a),
{
    lemma_disjoint_maps_commute(a.ide, b.ide);
    lemma_disjoint_maps_commute(a.cli, b.cli);
    lemma_disjoint_maps_commute(a.custom, b.custom);
}

/// Two verdicts that both meet the validation contract of one document are
/// the same verdict.
pub proof fn lemma_validation_deterministic(
    fault: Option<ValidationFault>,
    first: Result<(), ValidationError>,
    second: Result<(), ValidationError>,
)
    requires
        verdict_matches(first, fault),
        verdict_matches(second, fault),
    ensures
        first.is_ok() == second.is_ok(),
        first.is_err() ==> first.unwrap_err()@ == second.unwrap_err()@,
{
}

proof fn lemma_first_unknown_exists(fs: Seq<Seq<char>>, i: int)
    requires
        0 <= i < fs.len(),
        !is_feature_name(fs[i]),
    ensures
        first_unknown_feature(fs).is_some(),
    decreases fs.len(),
{
    if is_feature_name(fs[0]) {
        lemma_first_unknown_exists(fs.drop_first(), i - 1);
    }
}

/// A document that lists an unknown feature fails validation with an
/// unknown-feature error, whatever its targets and providers.
pub proof fn lemma_unknown_feature_fails(features: Seq<Seq<char>>, i: int)
    requires
        0 <= i < features.len(),
        !is_feature_name(features[i]),
    ensures
        forall|targets: Option<TargetsModel>, providers: Option<ProvidersModel>|
            #[trigger] layer_fault(features, targets, providers) == Some(
                ValidationFault::UnknownFeature(first_unknown_feature(features).unwrap()),
            ),
{
    lemma_first_unknown_exists(features, i);
}

/// Whether every configured capability of the current providers is
/// recorded in the previous ones with the same hash.
pub open spec fn hashes_match(current: Option<ProvidersModel>, previous: Option<ProvidersModel>) -> bool {
    forall|kind: Target, name: Seq<char>, feature: Seq<char>|
        #[trigger] lookup(current, kind, name, feature).is_some() ==> lookup(
            previous,
            kind,
            name,
            feature,
        ).is_some() && lookup(previous, kind, name, feature).unwrap().hash == lookup(
            current,
            kind,
            name,
            feature,
        ).unwrap().hash
}

/// When every hash matches the previous projection, nothing is new and
/// nothing changed.
pub proof fn lemma_matching_hashes_unchanged(
    current: Option<ProvidersModel>,
    previous: Option<ProvidersModel>,
)
    requires
        hashes_match(current, previous),
    ensures
        forall|kind: Target, name: Seq<char>, feature: Seq<char>|
            #[trigger] drift_status(current, previous, kind, name, feature) != Some(DriftStatus::New)
                && drift_status(current, previous, kind, name, feature) != Some(
                DriftStatus::Changed,
            ),
{
    assert forall|kind: Target, name: Seq<char>, feature: Seq<char>|
        #[trigger] drift_status(current, previous, kind, name, feature) != Some(DriftStatus::New)
            && drift_status(current, previous, kind, name, feature) != Some(
            DriftStatus::Changed,
        ) by {
        if lookup(current, kind, name, feature).is_some() {
            assert(lookup(previous, kind, name, feature).is_some());
        }
    }
}

/// Drift against the projection of the same providers finds nothing new
/// and nothing changed.
pub proof fn lemma_own_projection_unchanged(current: Option<ProvidersModel>)
    ensures
        forall|kind: Target, name: Seq<char>, feature: Seq<char>|
            #[trigger] drift_status(current, current, kind, name, feature) != Some(DriftStatus::New)
                && drift_status(current, current, kind, name, feature) != Some(
                DriftStatus::Changed,
            ),
{
    lemma_matching_hashes_unchanged(current, current);
}

/// Starting from providers whose hashes all match the previous projection,
/// changing the hash of exactly one recorded capability makes that one
/// changed and leaves every other unchanged.
pub proof fn lemma_one_changed_hash(
    current: Option<ProvidersModel>,
    edited: Option<ProvidersModel>,
    previous: Option<ProvidersModel>,
    kind: Target,
    name: Seq<char>,
    feature: Seq<char>,
)
    requires
        hashes_match(current, previous),
        lookup(current, kind, name, feature).is_some(),
        lookup(previous, kind, name, feature).unwrap().hash.is_some(),
        lookup(edited, kind, name, feature).is_some(),
        lookup(edited, kind, name, feature).unwrap().hash != lookup(
            current,
            kind,
            name,
            feature,
        ).unwrap().hash,
        forall|k: Target, n: Seq<char>, f: Seq<char>|
            !(k == kind && n == name && f == feature) ==> #[trigger] lookup(edited, k, n, f)
                == lookup(current, k, n, f),
    ensures
        drift_status(edited, previous, kind, name, feature) == Some(DriftStatus::Changed),
        forall|k: Target, n: Seq<char>, f: Seq<char>|
            !(k == kind && n == name && f == feature) ==> #[trigger] drift_status(
                edited,
                previous,
                k,
                n,
                f,
            ) != Some(DriftStatus::New) && drift_status(edited, previous, k, n, f) != Some(
                DriftStatus::Changed,
            ),
{
    lemma_matching_hashes_unchanged(current, previous);
    assert forall|k: Target, n: Seq<char>, f: Seq<char>|
        !(k == kind && n == name && f == feature) implies #[trigger] drift_status(
            edited,
            previous,
            k,
            n,
            f,
        ) != Some(DriftStatus::New) && drift_status(edited, previous, k, n, f) != Some(
            DriftStatus::Changed,
        ) by {
        assert(lookup(edited, k, n, f) == lookup(current, k, n, f));
        assert(drift_status(current, previous, k, n, f) != Some(DriftStatus::New));
    }
}

/// Against a projection with no providers at all, every configured
/// capability is new.
pub proof fn lemma_empty_projection_all_new(current: Option<ProvidersModel>)
    ensures
        forall|kind: Target, name: Seq<char>, feature: Seq<char>|
            #[trigger] lookup(current, kind, name, feature).is_some() ==> drift_status(
                current,
                None,
                kind,
                name,
                feature,
            ) == Some(DriftStatus::New),
{
}

} // verus!
