//! What holds of every conversion: each classified version lies in the one
//! list of its label, the product identifiers are the numbers from 1 on
//! without a gap or a repeat, and a remediation is there exactly where a
//! patched version is.

use crate::advisory::{
    canonical_version, patched_requirements, unaffected_requirements, Advisory,
};
use crate::document::GeneratorModel;
use crate::interop::{
    all_parse, bucket, classified, ids_of, label_of, matches_any, present, product_id, spec_csaf,
    version_branch, BranchTrackingModel, Classification, ClassifiedVersionModel,
};
use crate::text::{decimal, lemma_decimal_injective, uppercase};
use crate::vulnerability::RemediationCategory;
use rustsec::advisory::Versions;
use vstd::prelude::*;

verus! {

/// A version that a never-affected range holds is labelled unaffected,
/// whatever the patched ranges and the oracle say of it.
pub proof fn theorem_unaffected_first(versions: Versions, version: Seq<char>)
    requires
        matches_any(unaffected_requirements(versions), version),
    ensures
        label_of(versions, version) == Some(Classification::Unaffected),
{
}

/// A version that a patched range holds, and no never-affected range, is
/// labelled patched, whatever the oracle says of it.
pub proof fn theorem_patched_second(versions: Versions, version: Seq<char>)
    requires
        !matches_any(unaffected_requirements(versions), version),
        matches_any(patched_requirements(versions), version),
    ensures
        label_of(versions, version) == Some(Classification::Patched),
{
}

/// The number of texts among the first `count` of the list that the advisory
/// labels.
pub open spec fn labelled_before(versions: Versions, registry: Seq<Seq<char>>, count: int) -> nat
    decreases count,
{
    if count <= 0 {
        0
    } else if label_of(versions, registry[count - 1]) is Some {
        labelled_before(versions, registry, count - 1) + 1
    } else {
        labelled_before(versions, registry, count - 1)
    }
}

proof fn lemma_labelled_before_prefix(
    versions: Versions,
    registry: Seq<Seq<char>>,
    shorter: Seq<Seq<char>>,
    count: int,
)
    requires
        0 <= count <= shorter.len() <= registry.len(),
        shorter == registry.take(shorter.len() as int),
    ensures
        labelled_before(versions, shorter, count) == labelled_before(versions, registry, count),
    decreases count,
{
    if count > 0 {
        lemma_labelled_before_prefix(versions, registry, shorter, count - 1);
        assert(shorter[count - 1] == registry[count - 1]);
    }
}

/// Every published version that the advisory labels is classified once,
/// under its label and its printed name, at the place that the number of
/// labelled versions before it gives; a version without a label is
/// classified nowhere, so that as many versions are classified as have a
/// label.
pub proof fn theorem_classified(versions: Versions, registry: Seq<Seq<char>>, i: int)
    requires
        all_parse(registry),
        0 <= i < registry.len(),
    ensures
        classified(versions, registry).len() == labelled_before(
            versions,
            registry,
            registry.len() as int,
        ),
        labelled_before(versions, registry, i) <= labelled_before(
            versions,
            registry,
            registry.len() as int,
        ),
        label_of(versions, registry[i]) matches Some(label) ==> {
            let place = labelled_before(versions, registry, i) as int;
            &&& place < classified(versions, registry).len()
            &&& classified(versions, registry)[place] == (ClassifiedVersionModel {
                version: canonical_version(registry[i])->0,
                label,
            })
        },
    decreases registry.len(),
{
    let shorter = registry.drop_last();
    let last = registry.len() - 1;
    assert(shorter == registry.take(last));
    lemma_labelled_before_prefix(versions, registry, shorter, last);
    assert(registry[last] == registry.last());
    assert(canonical_version(registry[last]) is Some);
    if i < last {
        assert forall|j: int| 0 <= j < shorter.len() implies canonical_version(
            #[trigger] shorter[j],
        ) is Some by {
            assert(shorter[j] == registry[j]);
        }
        theorem_classified(versions, shorter, i);
        lemma_labelled_before_prefix(versions, registry, shorter, i);
        assert(shorter[i] == registry[i]);
    } else if last > 0 {
        assert forall|j: int| 0 <= j < shorter.len() implies canonical_version(
            #[trigger] shorter[j],
        ) is Some by {
            assert(shorter[j] == registry[j]);
        }
        theorem_classified(versions, shorter, 0);
    } else {
        assert(shorter.len() == 0);
    }
}

/// Two numbers with one product identifier are one number.
pub proof fn lemma_product_id_injective(package: Seq<char>, a: nat, b: nat)
    requires
        product_id(package, a) == product_id(package, b),
    ensures
        a == b,
{
    let stem = uppercase(package) + seq!['-'];
    assert(product_id(package, a).subrange(
        stem.len() as int,
        product_id(package, a).len() as int,
    ) =~= decimal(a));
    assert(product_id(package, b).subrange(
        stem.len() as int,
        product_id(package, b).len() as int,
    ) =~= decimal(b));
    lemma_decimal_injective(a, b);
}

/// The places of the classified versions with the given label, in order.
spec fn places(list: Seq<ClassifiedVersionModel>, label: Classification) -> Seq<int>
    decreases list.len(),
{
    if list.len() == 0 {
        Seq::empty()
    } else {
        let earlier = places(list.drop_last(), label);
        if list.last().label == label {
            earlier.push(list.len() - 1)
        } else {
            earlier
        }
    }
}

/// The branches of a label are those of its places, one for one.
proof fn lemma_places(package: Seq<char>, list: Seq<ClassifiedVersionModel>, label: Classification)
    ensures
        places(list, label).len() == bucket(package, list, label).len(),
        forall|j: int|
            0 <= j < places(list, label).len() ==> {
                let place = #[trigger] places(list, label)[j];
                &&& 0 <= place < list.len()
                &&& list[place].label == label
                &&& bucket(package, list, label)[j] == version_branch(
                    package,
                    list[place].version,
                    (place + 1) as nat,
                )
            },
        forall|j: int, k: int|
            0 <= j < k < places(list, label).len() ==> places(list, label)[j] < places(
                list,
                label,
            )[k],
        forall|place: int|
            0 <= place < list.len() && (#[trigger] list[place]).label == label ==> places(
                list,
                label,
            ).contains(place),
    decreases list.len(),
{
    if list.len() > 0 {
        let shorter = list.drop_last();
        lemma_places(package, shorter, label);
        let earlier = places(shorter, label);
        assert forall|j: int| 0 <= j < places(list, label).len() implies {
            let place = #[trigger] places(list, label)[j];
            &&& 0 <= place < list.len()
            &&& list[place].label == label
            &&& bucket(package, list, label)[j] == version_branch(
                package,
                list[place].version,
                (place + 1) as nat,
            )
        } by {
            if j < earlier.len() {
                let place = earlier[j];
                assert(places(list, label)[j] == place);
                assert(shorter[place] == list[place]);
            }
        }
        assert forall|j: int, k: int| 0 <= j < k < places(list, label).len() implies places(
            list,
            label,
        )[j] < places(list, label)[k] by {
            if k < earlier.len() {
            } else {
                assert(places(list, label)[j] == earlier[j]);
            }
        }
        assert forall|place: int|
            0 <= place < list.len() && (#[trigger] list[place]).label == label implies places(
            list,
            label,
        ).contains(place) by {
            if place < shorter.len() {
                assert(shorter[place] == list[place]);
                assert(earlier.contains(place));
                let j = choose|j: int| 0 <= j < earlier.len() && earlier[j] == place;
                assert(places(list, label)[j] == place);
            } else {
                assert(places(list, label)[earlier.len() as int] == place);
            }
        }
    }
}

/// As many branches as classified versions.
proof fn lemma_bucket_lengths(package: Seq<char>, list: Seq<ClassifiedVersionModel>)
    ensures
        BranchTrackingModel::of(package, list).all().len() == list.len(),
    decreases list.len(),
{
    if list.len() > 0 {
        lemma_bucket_lengths(package, list.drop_last());
    }
}

/// The identifier of a branch of a label is that of its place.
proof fn lemma_bucket_id(
    package: Seq<char>,
    list: Seq<ClassifiedVersionModel>,
    label: Classification,
    j: int,
) -> (place: int)
    requires
        0 <= j < bucket(package, list, label).len(),
    ensures
        0 <= place < list.len(),
        list[place].label == label,
        place == places(list, label)[j],
        ids_of(bucket(package, list, label))[j] == product_id(package, (place + 1) as nat),
{
    lemma_places(package, list, label);
    places(list, label)[j]
}

/// The classified version at place `k` has its branch in the list of its
/// label, and its product identifier stands in no other list: every
/// classified version lies in exactly one of the three.
pub proof fn theorem_one_bucket(package: Seq<char>, list: Seq<ClassifiedVersionModel>, k: int)
    requires
        0 <= k < list.len(),
    ensures
        ({
            let tracking = BranchTrackingModel::of(package, list);
            let branch = version_branch(package, list[k].version, (k + 1) as nat);
            let id = product_id(package, (k + 1) as nat);
            &&& list[k].label == Classification::Patched ==> tracking.patched.contains(branch)
            &&& list[k].label == Classification::Unaffected ==> tracking.unaffected.contains(branch)
            &&& list[k].label == Classification::Vulnerable ==> tracking.vulnerable.contains(branch)
            &&& ids_of(tracking.patched).contains(id) ==> list[k].label == Classification::Patched
            &&& ids_of(tracking.unaffected).contains(id) ==> list[k].label
                == Classification::Unaffected
            &&& ids_of(tracking.vulnerable).contains(id) ==> list[k].label
                == Classification::Vulnerable
        }),
{
    lemma_in_bucket(package, list, Classification::Patched, k);
    lemma_in_bucket(package, list, Classification::Unaffected, k);
    lemma_in_bucket(package, list, Classification::Vulnerable, k);
}

proof fn lemma_in_bucket(
    package: Seq<char>,
    list: Seq<ClassifiedVersionModel>,
    label: Classification,
    k: int,
)
    requires
        0 <= k < list.len(),
    ensures
        list[k].label == label ==> bucket(package, list, label).contains(
            version_branch(package, list[k].version, (k + 1) as nat),
        ),
        ids_of(bucket(package, list, label)).contains(product_id(package, (k + 1) as nat))
            ==> list[k].label == label,
{
    lemma_places(package, list, label);
    let branches = bucket(package, list, label);
    if list[k].label == label {
        assert(places(list, label).contains(k));
        let j = choose|j: int| 0 <= j < places(list, label).len() && places(list, label)[j] == k;
        assert(branches[j] == version_branch(package, list[k].version, (k + 1) as nat));
    }
    let id = product_id(package, (k + 1) as nat);
    if ids_of(branches).contains(id) {
        let j = choose|j: int| 0 <= j < ids_of(branches).len() && ids_of(branches)[j] == id;
        let place = lemma_bucket_id(package, list, label, j);
        lemma_product_id_injective(package, (place + 1) as nat, (k + 1) as nat);
    }
}

/// A published version with a label has its branch in the list of that
/// label, under the number that follows the count of labelled versions
/// before it, and the product identifier with that number stands in neither
/// of the two other lists.
pub proof fn theorem_version_in_one_list(
    package: Seq<char>,
    versions: Versions,
    registry: Seq<Seq<char>>,
    i: int,
)
    requires
        all_parse(registry),
        0 <= i < registry.len(),
        label_of(versions, registry[i]) is Some,
    ensures
        ({
            let tracking = BranchTrackingModel::of(package, classified(versions, registry));
            let label = label_of(versions, registry[i])->0;
            let number = labelled_before(versions, registry, i) + 1;
            let branch = version_branch(package, canonical_version(registry[i])->0, number);
            let id = product_id(package, number);
            &&& bucket(package, classified(versions, registry), label).contains(branch)
            &&& label != Classification::Patched ==> !ids_of(tracking.patched).contains(id)
            &&& label != Classification::Unaffected ==> !ids_of(tracking.unaffected).contains(id)
            &&& label != Classification::Vulnerable ==> !ids_of(tracking.vulnerable).contains(id)
        }),
{
    theorem_classified(versions, registry, i);
    let place = labelled_before(versions, registry, i) as int;
    theorem_one_bucket(package, classified(versions, registry), place);
}

/// The place in the list of classified versions that the branch at place `j`
/// of all branches stands for.
proof fn lemma_all_id(package: Seq<char>, list: Seq<ClassifiedVersionModel>, j: int) -> (place: int)
    requires
        0 <= j < BranchTrackingModel::of(package, list).all().len(),
    ensures
        0 <= place < list.len(),
        ids_of(BranchTrackingModel::of(package, list).all())[j] == product_id(
            package,
            (place + 1) as nat,
        ),
        ({
            let tracking = BranchTrackingModel::of(package, list);
            let first = tracking.patched.len();
            let second = first + tracking.unaffected.len();
            if j < first {
                list[place].label == Classification::Patched && place == places(
                    list,
                    Classification::Patched,
                )[j]
            } else if j < second {
                list[place].label == Classification::Unaffected && place == places(
                    list,
                    Classification::Unaffected,
                )[j - first]
            } else {
                list[place].label == Classification::Vulnerable && place == places(
                    list,
                    Classification::Vulnerable,
                )[j - second]
            }
        }),
{
    let tracking = BranchTrackingModel::of(package, list);
    let first = tracking.patched.len();
    let second = first + tracking.unaffected.len();
    if j < first {
        assert(tracking.all()[j] == tracking.patched[j]);
        lemma_bucket_id(package, list, Classification::Patched, j)
    } else if j < second {
        assert(tracking.all()[j] == tracking.unaffected[j - first]);
        lemma_bucket_id(package, list, Classification::Unaffected, j - first)
    } else {
        assert(tracking.all()[j] == tracking.vulnerable[j - second]);
        lemma_bucket_id(package, list, Classification::Vulnerable, j - second)
    }
}

/// Whether the text is the product identifier with one of the numbers from 1
/// to `count`.
pub open spec fn has_number(package: Seq<char>, id: Seq<char>, count: nat) -> bool {
    exists|number: nat| 1 <= number <= count && id == #[trigger] product_id(package, number)
}

/// Of `n` classified versions come `n` product identifiers, those with the
/// numbers from 1 to `n`: no number is left out and none is given twice,
/// however the versions are spread over the three labels.
pub proof fn theorem_identifiers(package: Seq<char>, list: Seq<ClassifiedVersionModel>)
    ensures
        ({
            let ids = ids_of(BranchTrackingModel::of(package, list).all());
            &&& ids.len() == list.len()
            &&& forall|number: nat|
                1 <= number <= list.len() ==> ids.contains(#[trigger] product_id(package, number))
            &&& forall|i: int| 0 <= i < ids.len() ==> has_number(package, #[trigger] ids[i], list.len())
            &&& forall|i: int, j: int| 0 <= i < j < ids.len() ==> ids[i] != ids[j]
        }),
{
    let tracking = BranchTrackingModel::of(package, list);
    let all = tracking.all();
    let ids = ids_of(all);
    let first = tracking.patched.len() as int;
    let second = first + tracking.unaffected.len();
    lemma_bucket_lengths(package, list);
    lemma_places(package, list, Classification::Patched);
    lemma_places(package, list, Classification::Unaffected);
    lemma_places(package, list, Classification::Vulnerable);
    assert forall|number: nat| 1 <= number <= list.len() implies ids.contains(
        #[trigger] product_id(package, number),
    ) by {
        let k = number - 1;
        let label = list[k].label;
        assert(places(list, label).contains(k));
        let j = choose|j: int| 0 <= j < places(list, label).len() && places(list, label)[j] == k;
        let at = match label {
            Classification::Patched => j,
            Classification::Unaffected => first + j,
            Classification::Vulnerable => second + j,
        };
        let place = lemma_all_id(package, list, at);
        assert(place == k);
        assert(ids[at] == product_id(package, number));
    }
    assert forall|i: int| 0 <= i < ids.len() implies has_number(
        package,
        #[trigger] ids[i],
        list.len(),
    ) by {
        let place = lemma_all_id(package, list, i);
        assert(ids[i] == product_id(package, (place + 1) as nat));
    }
    assert forall|i: int, j: int| 0 <= i < j < ids.len() implies ids[i] != ids[j] by {
        let place_i = lemma_all_id(package, list, i);
        let place_j = lemma_all_id(package, list, j);
        assert(place_i != place_j);
        if ids[i] == ids[j] {
            lemma_product_id_injective(package, (place_i + 1) as nat, (place_j + 1) as nat);
        }
    }
}

/// In the document of an advisory, a remediation is there exactly where a
/// published version is patched. It is then the only one, a vendor fix, and
/// meant for the vulnerable products and no others.
pub proof fn theorem_remediation(
    advisory: Advisory,
    registry: Seq<Seq<char>>,
    generator: GeneratorModel,
)
    ensures
        ({
            let tracking = BranchTrackingModel::of(
                advisory.package@,
                classified(advisory.versions, registry),
            );
            let record = spec_csaf(advisory, registry, generator).vulnerabilities->0[0];
            &&& record.remediations is Some <==> tracking.patched.len() > 0
            &&& record.remediations matches Some(list) ==> {
                &&& list.len() == 1
                &&& list[0].category == RemediationCategory::VendorFix
                &&& list[0].product_ids == present(ids_of(tracking.vulnerable))
            }
        }),
{
}

/// In the document of an advisory no list of the product status is there and
/// empty: a label that no version carries leaves its list out.
pub proof fn theorem_status_lists(
    advisory: Advisory,
    registry: Seq<Seq<char>>,
    generator: GeneratorModel,
)
    ensures
        ({
            let tracking = BranchTrackingModel::of(
                advisory.package@,
                classified(advisory.versions, registry),
            );
            let record = spec_csaf(advisory, registry, generator).vulnerabilities->0[0];
            &&& record.product_status matches Some(status)
            &&& status.fixed == present(ids_of(tracking.patched))
            &&& status.known_affected == present(ids_of(tracking.vulnerable))
            &&& status.known_not_affected == present(ids_of(tracking.unaffected))
            &&& status.fixed matches Some(list) ==> list.len() > 0
            &&& status.known_affected matches Some(list) ==> list.len() > 0
            &&& status.known_not_affected matches Some(list) ==> list.len() > 0
            &&& status.first_affected is None
            &&& status.first_fixed is None
            &&& status.last_affected is None
            &&& status.recommended is None
            &&& status.under_investigation is None
        }),
{
}

} // verus!
