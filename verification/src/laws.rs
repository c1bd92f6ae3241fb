//! What holds of every operator set and of every filter.

use vstd::prelude::*;
use crate::field_filter::{FieldFilter, WithFilterOps};
use crate::filter_ops::{lemma_names_push, lemma_operator_names, operator_entry, BaseFilterOps, FilterOps, OptionFilterOps, OptionOpsView, StringFilterOps, StringOpsView};
use crate::registry::{keyed, lemma_put_all_fresh, names_of, put_all, MetaTypeView};
use crate::scalar::{Date, Uuid};
use crate::value::{FieldErrorView, ValueView};

verus! {

/// Every filter of a kind that has one parses from what it writes as itself,
/// where each present value reads back from what is written for it.
pub proof fn law_filter_round_trip<T: WithFilterOps>(x: <T::Ops as View>::V)
    requires
        T::Ops::reads_back(x),
    ensures
        FieldFilter::<T>::parse_spec(Some(FieldFilter::<T>::value_spec(x))) == Ok::<
            <T::Ops as View>::V,
            FieldErrorView,
        >(x),
{
    T::lemma_distinct_names();
    T::Ops::lemma_round_trip(x, Map::empty(), T::filter_name_spec());
}

/// Writing then parsing gives the set back: for every operator set of which
/// no two operators share a name, and every instance of which each present
/// value reads back from what is written for it, the object that the
/// instance writes parses as the instance.
pub proof fn law_round_trip<O: FilterOps>(x: O::V, target: Seq<char>)
    requires
        names_of(O::fields_spec()).no_duplicates(),
        O::reads_back(x),
    ensures
        O::parse_spec(O::write_spec(x, Map::empty()), target) == Ok::<O::V, FieldErrorView>(x),
{
    O::lemma_round_trip(x, Map::empty(), target);
}

/// The set without a present operator writes the empty object, and the
/// empty object parses as a set without a present operator.
pub proof fn law_no_constraint<O: FilterOps>(x: O::V, target: Seq<char>)
    ensures
        O::absent(x) ==> O::write_spec(x, Map::empty()) == Map::<Seq<char>, ValueView>::empty(),
        match O::parse_spec(Map::empty(), target) {
            Ok(y) => O::absent(y),
            Err(_) => false,
        },
{
    O::lemma_absent(x, Map::empty(), target);
}

/// No name occurs twice among the fields that a set of the six kinds
/// describes.
pub proof fn law_names_distinct()
    ensures
        names_of(<String as WithFilterOps>::Ops::fields_spec()).no_duplicates(),
        names_of(<Option<String> as WithFilterOps>::Ops::fields_spec()).no_duplicates(),
        names_of(<Uuid as WithFilterOps>::Ops::fields_spec()).no_duplicates(),
        names_of(<Option<Uuid> as WithFilterOps>::Ops::fields_spec()).no_duplicates(),
        names_of(<Date as WithFilterOps>::Ops::fields_spec()).no_duplicates(),
        names_of(<Option<Date> as WithFilterOps>::Ops::fields_spec()).no_duplicates(),
{
    <String as WithFilterOps>::lemma_distinct_names();
    <Option<String> as WithFilterOps>::lemma_distinct_names();
    <Uuid as WithFilterOps>::lemma_distinct_names();
    <Option<Uuid> as WithFilterOps>::lemma_distinct_names();
    <Date as WithFilterOps>::lemma_distinct_names();
    <Option<Date> as WithFilterOps>::lemma_distinct_names();
}

/// Where no two operators of a set share a name, the input object that is
/// registered for the set holds the set's fields as they are described, each
/// under its name and in their order.
pub proof fn law_described_fields<O: FilterOps>()
    requires
        names_of(O::fields_spec()).no_duplicates(),
    ensures
        put_all(Seq::empty(), O::fields_spec()) == keyed(O::fields_spec()),
{
    lemma_put_all_fresh(O::fields_spec());
}

/// Every text filter, and every filter on a text that may be missing,
/// parses from what it writes as itself.
pub proof fn law_round_trip_text(
    x: StringOpsView,
    y: OptionOpsView<StringOpsView>,
    target: Seq<char>,
)
    ensures
        StringFilterOps::parse_spec(StringFilterOps::write_spec(x, Map::empty()), target) == Ok::<
            StringOpsView,
            FieldErrorView,
        >(x),
        OptionFilterOps::<StringFilterOps>::parse_spec(
            OptionFilterOps::<StringFilterOps>::write_spec(y, Map::empty()),
            target,
        ) == Ok::<OptionOpsView<StringOpsView>, FieldErrorView>(y),
{
    law_names_distinct();
    law_round_trip::<StringFilterOps>(x, target);
    law_round_trip::<OptionFilterOps<StringFilterOps>>(y, target);
}

/// Parsing reads no key but the names that the set describes: a key that is
/// none of them can be set, changed or removed without any change to what
/// the object parses as.
pub proof fn law_other_keys_ignored<O: FilterOps>(
    m: Map<Seq<char>, ValueView>,
    key: Seq<char>,
    v: ValueView,
    target: Seq<char>,
)
    requires
        !names_of(O::fields_spec()).contains(key),
    ensures
        O::parse_spec(m.insert(key, v), target) == O::parse_spec(m, target),
        O::parse_spec(m.remove(key), target) == O::parse_spec(m, target),
{
    O::lemma_parse_ignores(m, key, v, target);
}

/// Parsing reads every name that a set of the six kinds describes: a list
/// under that name alone is refused, at that name.
pub proof fn law_named_keys_read(key: Seq<char>, target: Seq<char>)
    ensures
        names_of(<String as WithFilterOps>::Ops::fields_spec()).contains(key) ==> refused_at(
            <String as WithFilterOps>::Ops::parse_spec(only_list(key), target),
            key,
        ),
        names_of(<Option<String> as WithFilterOps>::Ops::fields_spec()).contains(key)
            ==> refused_at(
            <Option<String> as WithFilterOps>::Ops::parse_spec(only_list(key), target),
            key,
        ),
        names_of(<Uuid as WithFilterOps>::Ops::fields_spec()).contains(key) ==> refused_at(
            <Uuid as WithFilterOps>::Ops::parse_spec(only_list(key), target),
            key,
        ),
        names_of(<Option<Uuid> as WithFilterOps>::Ops::fields_spec()).contains(key)
            ==> refused_at(
            <Option<Uuid> as WithFilterOps>::Ops::parse_spec(only_list(key), target),
            key,
        ),
        names_of(<Date as WithFilterOps>::Ops::fields_spec()).contains(key) ==> refused_at(
            <Date as WithFilterOps>::Ops::parse_spec(only_list(key), target),
            key,
        ),
        names_of(<Option<Date> as WithFilterOps>::Ops::fields_spec()).contains(key)
            ==> refused_at(
            <Option<Date> as WithFilterOps>::Ops::parse_spec(only_list(key), target),
            key,
        ),
{
    lemma_operator_names();
    StringFilterOps::lemma_names(key);
    BaseFilterOps::<String>::lemma_names(key);
    BaseFilterOps::<Uuid>::lemma_names(key);
    BaseFilterOps::<Date>::lemma_names(key);
    let entry = operator_entry::<bool>("isNull"@);
    lemma_names_push(StringFilterOps::fields_spec(), entry, key);
    lemma_names_push(BaseFilterOps::<Uuid>::fields_spec(), entry, key);
    lemma_names_push(BaseFilterOps::<Date>::fields_spec(), entry, key);
}

/// The object that holds a list under `key` and nothing else.
pub open spec fn only_list(key: Seq<char>) -> Map<Seq<char>, ValueView> {
    Map::<Seq<char>, ValueView>::empty().insert(key, ValueView::List)
}

/// The parse failed at the operator `key`.
pub open spec fn refused_at<V>(r: Result<V, FieldErrorView>, key: Seq<char>) -> bool {
    match r {
        Ok(_) => false,
        Err(e) => e.field == Some(key),
    }
}

/// The set of a kind that may be missing has the fields of the kind itself
/// and then `isNull`; an object without the key `isNull` parses as the
/// kind's own set does, with `isNull` absent.
pub proof fn law_is_null_appended<T: FilterOps>(m: Map<Seq<char>, ValueView>, target: Seq<char>)
    ensures
        OptionFilterOps::<T>::fields_spec() == T::fields_spec().push(
            operator_entry::<bool>("isNull"@),
        ),
        names_of(OptionFilterOps::<T>::fields_spec()) == names_of(T::fields_spec()).push(
            "isNull"@,
        ),
        !m.contains_key("isNull"@) ==> OptionFilterOps::<T>::parse_spec(m, target) == (match T::parse_spec(
            m,
            target,
        ) {
            Ok(ops) => Ok::<OptionOpsView<T::V>, FieldErrorView>(
                OptionOpsView { ops, is_null: None },
            ),
            Err(e) => Err::<OptionOpsView<T::V>, FieldErrorView>(e),
        }),
{
    lemma_names_push(T::fields_spec(), operator_entry::<bool>("isNull"@), "isNull"@);
}

/// Registering a filter type a second time under the same name is allowed
/// and changes nothing: the registry is as the first registration left it.
pub proof fn law_registration_idempotent<T: WithFilterOps>(
    types: Map<Seq<char>, MetaTypeView>,
    name: Seq<char>,
)
    ensures
        FieldFilter::<T>::created_spec(FieldFilter::<T>::created_spec(types, name), name)
            == FieldFilter::<T>::created_spec(types, name),
        FieldFilter::<T>::created_spec(types, name).contains_key(name),
        FieldFilter::<T>::registrable(types, name) ==> FieldFilter::<T>::registrable(
            FieldFilter::<T>::created_spec(types, name),
            name,
        ),
{
}

} // verus!
