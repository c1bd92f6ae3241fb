//! Operator sets: which operators a filter on one scalar kind has, and how
//! they are described, read and written.

use vstd::prelude::*;
use crate::registry::{field_entries, insert_field, names_of, put_all, put_spec, scalar_fits, texts, with_scalar, InputFields, MetaInputValue, MetaInputValueView, MetaTypeView, Registry};
use crate::scalar::ScalarType;
use crate::value::{ErrorKind, FieldError, FieldErrorView, Object, Value, ValueView};

verus! {

/// The content of an operator's value, if it is present.
pub open spec fn present<T: View>(x: Option<T>) -> Option<T::V> {
    match x {
        Some(v) => Some(v@),
        None => None,
    }
}

/// What stands under `key`: a key that is missing counts as null.
pub open spec fn field_value(m: Map<Seq<char>, ValueView>, key: Seq<char>) -> ValueView {
    if m.contains_key(key) {
        m[key]
    } else {
        ValueView::Null
    }
}

/// What reading the operator `key` of scalar kind `T` from an object gives:
/// absent for null, else the scalar, or the scalar's refusal with the
/// operator and the filter type that was being built.
pub open spec fn read_operator_spec<T: ScalarType>(
    m: Map<Seq<char>, ValueView>,
    key: Seq<char>,
    target: Seq<char>,
) -> Result<Option<T::V>, FieldErrorView> {
    let v = field_value(m, key);
    if v is Null {
        Ok(None)
    } else {
        match T::read_spec(v) {
            Ok(x) => Ok(Some(x)),
            Err(kind) => Err(
                FieldErrorView { kind, target, field: Some(key), expected: T::name_spec(), found: v },
            ),
        }
    }
}

/// The object after the operator `key` was written: a present value stands
/// under the key, an absent one leaves the object as it was.
pub open spec fn write_operator_spec<T: ScalarType>(
    m: Map<Seq<char>, ValueView>,
    key: Seq<char>,
    x: Option<T::V>,
) -> Map<Seq<char>, ValueView> {
    match x {
        Some(v) => m.insert(key, T::value_spec(v)),
        None => m,
    }
}

/// What is written for a present value is not null and reads as that value.
pub open spec fn operator_reads_back<T: ScalarType>(x: Option<T::V>) -> bool {
    match x {
        Some(v) => !(T::value_spec(v) is Null) && T::read_spec(T::value_spec(v)) == Ok::<T::V, ErrorKind>(v),
        None => true,
    }
}

/// The metadata of the operator `key` of scalar kind `T`: no default,
/// visible, not secret.
pub open spec fn operator_entry<T: ScalarType>(key: Seq<char>) -> MetaInputValueView {
    MetaInputValueView {
        name: key,
        ty: T::name_spec(),
        default_value: None,
        visible: true,
        is_secret: false,
    }
}

/// The four operator names differ from each other.
pub proof fn lemma_operator_names()
    ensures
        "eq"@ != "neq"@,
        "eq"@ != "like"@,
        "eq"@ != "isNull"@,
        "neq"@ != "like"@,
        "neq"@ != "isNull"@,
        "like"@ != "isNull"@,
        "eq"@.len() == 2,
        "neq"@.len() == 3,
        "like"@.len() == 4,
        "isNull"@.len() == 6,
{
    reveal_strlit("eq");
    reveal_strlit("neq");
    reveal_strlit("like");
    reveal_strlit("isNull");
    assert("eq"@.len() == 2);
    assert("neq"@.len() == 3);
    assert("like"@.len() == 4);
    assert("isNull"@.len() == 6);
}

/// Reads one operator from an object.
pub fn read_operator<T: ScalarType>(obj: &Object, key: &str, target: &str) -> (r: Result<
    Option<T>,
    FieldError,
>)
    ensures
        match r {
            Ok(x) => read_operator_spec::<T>(obj@, key@, target@) == Ok::<
                Option<T::V>,
                FieldErrorView,
            >(present(x)),
            Err(e) => read_operator_spec::<T>(obj@, key@, target@) == Err::<
                Option<T::V>,
                FieldErrorView,
            >(e@),
        },
{
    match obj.get(key) {
        None => Ok(None),
        Some(v) => match v {
            Value::Null => Ok(None),
            _ => match T::parse(v) {
                Ok(x) => Ok(Some(x)),
                Err(kind) => Err(
                    FieldError {
                        kind,
                        target: target.to_owned(),
                        field: Some(key.to_owned()),
                        expected: T::schema_name(),
                        found: v.duplicate(),
                    },
                ),
            },
        },
    }
}

/// Writes one operator into an object.
pub fn write_operator<T: ScalarType>(map: &mut Object, key: &str, x: &Option<T>)
    ensures
        final(map)@ == write_operator_spec::<T>(old(map)@, key@, present(*x)),
        operator_reads_back::<T>(present(*x)),
{
    match x {
        Some(v) => {
            let value = v.to_value();
            map.insert(key.to_owned(), value);
        },
        None => {},
    }
}

/// Describes one operator: registers its scalar kind and appends its
/// metadata.
pub fn describe_operator<T: ScalarType>(
    registry: &mut Registry,
    fields: &mut InputFields,
    key: &str,
)
    requires
        scalar_fits(old(registry)@, T::name_spec()),
    ensures
        field_entries(*final(fields)) == put_spec(
            field_entries(*old(fields)),
            key@,
            operator_entry::<T>(key@),
        ),
        final(registry)@ == with_scalar(old(registry)@, T::name_spec()),
{
    registry.create_scalar(T::schema_name());
    let entry = MetaInputValue {
        name: key.to_owned(),
        ty: T::schema_name(),
        default_value: None,
        visible: true,
        is_secret: false,
    };
    insert_field(fields, entry);
}

/// Appends one name to a list of names.
pub fn push_name(fields: &mut Vec<String>, key: &str)
    ensures
        texts(final(fields)@) == texts(old(fields)@).push(key@),
{
    fields.push(key.to_owned());
    proof {
        assert(texts(fields@) =~= texts(old(fields)@).push(key@));
    }
}


/// Appending a field appends its name.
pub proof fn lemma_names_push(s: Seq<MetaInputValueView>, e: MetaInputValueView, key: Seq<char>)
    ensures
        names_of(s.push(e)) == names_of(s).push(e.name),
        names_of(s.push(e)).contains(key) <==> (names_of(s).contains(key) || e.name == key),
{
    let a = names_of(s.push(e));
    let b = names_of(s).push(e.name);
    assert(a =~= b);
    if names_of(s).contains(key) {
        let i = choose|i: int| 0 <= i < names_of(s).len() && names_of(s)[i] == key;
        assert(b[i] == key);
    }
    if e.name == key {
        assert(b[s.len() as int] == key);
    }
    if b.contains(key) {
        let i = choose|i: int| 0 <= i < b.len() && b[i] == key;
        if i < s.len() {
            assert(names_of(s)[i] == key);
        }
    }
}

/// Where no name occurs twice after a field was appended, none did before,
/// and the field's name is new.
pub proof fn lemma_distinct_push(s: Seq<MetaInputValueView>, e: MetaInputValueView)
    requires
        names_of(s.push(e)).no_duplicates(),
    ensures
        names_of(s).no_duplicates(),
        !names_of(s).contains(e.name),
{
    let all = names_of(s.push(e));
    assert forall|i: int, j: int| 0 <= i < s.len() && 0 <= j < s.len() && i != j implies names_of(
        s,
    )[i] != names_of(s)[j] by {
        assert(all[i] == names_of(s)[i]);
        assert(all[j] == names_of(s)[j]);
    }
    if names_of(s).contains(e.name) {
        let i = choose|i: int| 0 <= i < names_of(s).len() && names_of(s)[i] == e.name;
        assert(all[i] == e.name);
        assert(all[s.len() as int] == e.name);
    }
}

/// No key of the object is one of the names.
pub open spec fn lacks(m: Map<Seq<char>, ValueView>, names: Seq<Seq<char>>) -> bool {
    forall|k: Seq<char>| names.contains(k) ==> !m.contains_key(k)
}

/// An operator set: the operators of a filter on one scalar kind.
pub trait FilterOps: View + Sized {
    /// The metadata of the operators, in their order.
    spec fn fields_spec() -> Seq<MetaInputValueView>;

    /// The registry after the operators' scalar kinds were registered.
    spec fn registered_spec(types: Map<Seq<char>, MetaTypeView>) -> Map<Seq<char>, MetaTypeView>;

    /// No name of the operators' scalar kinds is taken by another type.
    spec fn scalars_fit(types: Map<Seq<char>, MetaTypeView>) -> bool;

    /// What `parse` makes of an object, for the filter type `target`.
    spec fn parse_spec(m: Map<Seq<char>, ValueView>, target: Seq<char>) -> Result<
        Self::V,
        FieldErrorView,
    >;

    /// The object after `to_value` wrote the operators into it.
    spec fn write_spec(x: Self::V, m: Map<Seq<char>, ValueView>) -> Map<Seq<char>, ValueView>;

    /// No operator is present.
    spec fn absent(x: Self::V) -> bool;

    /// What is written for each present operator reads as its value.
    spec fn reads_back(x: Self::V) -> bool;

    /// A key that names no operator of the set has no part in parsing.
    proof fn lemma_parse_ignores(
        m: Map<Seq<char>, ValueView>,
        key: Seq<char>,
        v: ValueView,
        target: Seq<char>,
    )
        requires
            !names_of(Self::fields_spec()).contains(key),
        ensures
            Self::parse_spec(m.insert(key, v), target) == Self::parse_spec(m, target),
            Self::parse_spec(m.remove(key), target) == Self::parse_spec(m, target),
    ;

    /// Writing leaves alone every key that names no operator of the set.
    proof fn lemma_write_keeps(x: Self::V, m: Map<Seq<char>, ValueView>, key: Seq<char>)
        requires
            !names_of(Self::fields_spec()).contains(key),
        ensures
            Self::write_spec(x, m).contains_key(key) == m.contains_key(key),
            field_value(Self::write_spec(x, m), key) == field_value(m, key),
    ;

    /// What was written into an object that had none of the operators' keys
    /// parses as what was written.
    proof fn lemma_round_trip(x: Self::V, m: Map<Seq<char>, ValueView>, target: Seq<char>)
        requires
            names_of(Self::fields_spec()).no_duplicates(),
            Self::reads_back(x),
            lacks(m, names_of(Self::fields_spec())),
        ensures
            Self::parse_spec(Self::write_spec(x, m), target) == Ok::<Self::V, FieldErrorView>(x),
    ;

    /// The set without a present operator writes nothing, and an object
    /// without any of the operators' keys parses as that set.
    proof fn lemma_absent(x: Self::V, m: Map<Seq<char>, ValueView>, target: Seq<char>)
        ensures
            Self::absent(x) ==> Self::write_spec(x, m) == m,
            lacks(m, names_of(Self::fields_spec())) ==> match Self::parse_spec(m, target) {
                Ok(y) => Self::absent(y),
                Err(_) => false,
            },
    ;

    /// Writes the present operators into `map`, each under its name.
    fn to_value(&self, map: &mut Object)
        ensures
            final(map)@ == Self::write_spec(self@, old(map)@),
            Self::reads_back(self@),
    ;

    /// Registers the operators' scalar kinds and puts the operators'
    /// metadata into `fields`, each under its name.
    fn creat_fields_info(registry: &mut Registry, fields: &mut InputFields)
        requires
            Self::scalars_fit(old(registry)@),
        ensures
            field_entries(*final(fields)) == put_all(
                field_entries(*old(fields)),
                Self::fields_spec(),
            ),
            final(registry)@ == Self::registered_spec(old(registry)@),
    ;

    /// Reads the operators from an object, for the filter type `target`.
    fn parse(obj: &Object, target: &str) -> (r: Result<Self, FieldError>)
        ensures
            match r {
                Ok(x) => Self::parse_spec(obj@, target@) == Ok::<Self::V, FieldErrorView>(x@),
                Err(e) => Self::parse_spec(obj@, target@) == Err::<Self::V, FieldErrorView>(e@),
            },
    ;

    /// Appends the operators' names to `fields`.
    fn add_federation_fields(fields: &mut Vec<String>)
        ensures
            texts(final(fields)@) == texts(old(fields)@) + names_of(Self::fields_spec()),
    ;
}

/// The operators that every scalar kind has: `eq` and `neq`.
#[derive(Debug, Clone, PartialEq, Eq)]
pub struct BaseFilterOps<T: ScalarType> {
    pub eq: Option<T>,
    pub neq: Option<T>,
}

/// The mathematical content of a [`BaseFilterOps`].
pub ghost struct BaseOpsView<V> {
    pub eq: Option<V>,
    pub neq: Option<V>,
}

impl<T: ScalarType> View for BaseFilterOps<T> {
    type V = BaseOpsView<T::V>;

    open spec fn view(&self) -> BaseOpsView<T::V> {
        BaseOpsView { eq: present(self.eq), neq: present(self.neq) }
    }
}

impl<T: ScalarType> FilterOps for BaseFilterOps<T> {
    open spec fn fields_spec() -> Seq<MetaInputValueView> {
        Seq::empty().push(operator_entry::<T>("eq"@)).push(operator_entry::<T>("neq"@))
    }

    open spec fn registered_spec(types: Map<Seq<char>, MetaTypeView>) -> Map<
        Seq<char>,
        MetaTypeView,
    > {
        with_scalar(types, T::name_spec())
    }

    open spec fn scalars_fit(types: Map<Seq<char>, MetaTypeView>) -> bool {
        scalar_fits(types, T::name_spec())
    }

    open spec fn parse_spec(m: Map<Seq<char>, ValueView>, target: Seq<char>) -> Result<
        BaseOpsView<T::V>,
        FieldErrorView,
    > {
        match read_operator_spec::<T>(m, "eq"@, target) {
            Err(e) => Err(e),
            Ok(eq) => match read_operator_spec::<T>(m, "neq"@, target) {
                Err(e) => Err(e),
                Ok(neq) => Ok(BaseOpsView { eq, neq }),
            },
        }
    }

    open spec fn write_spec(x: BaseOpsView<T::V>, m: Map<Seq<char>, ValueView>) -> Map<
        Seq<char>,
        ValueView,
    > {
        write_operator_spec::<T>(write_operator_spec::<T>(m, "eq"@, x.eq), "neq"@, x.neq)
    }

    open spec fn absent(x: BaseOpsView<T::V>) -> bool {
        x.eq is None && x.neq is None
    }

    open spec fn reads_back(x: BaseOpsView<T::V>) -> bool {
        operator_reads_back::<T>(x.eq) && operator_reads_back::<T>(x.neq)
    }

    proof fn lemma_parse_ignores(
        m: Map<Seq<char>, ValueView>,
        key: Seq<char>,
        v: ValueView,
        target: Seq<char>,
    ) {
        Self::lemma_names(key);
    }

    proof fn lemma_write_keeps(x: BaseOpsView<T::V>, m: Map<Seq<char>, ValueView>, key: Seq<char>) {
        Self::lemma_names(key);
    }

    proof fn lemma_round_trip(x: BaseOpsView<T::V>, m: Map<Seq<char>, ValueView>, target: Seq<char>) {
        Self::lemma_names("eq"@);
        Self::lemma_names("neq"@);
        lemma_operator_names();
    }

    proof fn lemma_absent(x: BaseOpsView<T::V>, m: Map<Seq<char>, ValueView>, target: Seq<char>) {
        Self::lemma_names("eq"@);
        Self::lemma_names("neq"@);
    }

    fn to_value(&self, map: &mut Object) {
        write_operator::<T>(map, "eq", &self.eq);
        write_operator::<T>(map, "neq", &self.neq);
    }

    fn creat_fields_info(registry: &mut Registry, fields: &mut InputFields) {
        describe_operator::<T>(registry, fields, "eq");
        describe_operator::<T>(registry, fields, "neq");
        proof {
            let start = field_entries(*old(fields));
            let none = Seq::<MetaInputValueView>::empty();
            let first = none.push(operator_entry::<T>("eq"@));
            assert(Self::fields_spec().drop_last() =~= first);
            assert(first.drop_last() =~= none);
            assert(put_all(start, none) == start);
            assert(put_all(start, first) == put_spec(
                put_all(start, first.drop_last()),
                first.last().name,
                first.last(),
            ));
            assert(registry@ =~= Self::registered_spec(old(registry)@));
        }
    }

    fn parse(obj: &Object, target: &str) -> (r: Result<Self, FieldError>) {
        let eq = match read_operator::<T>(obj, "eq", target) {
            Ok(v) => v,
            Err(e) => {
                return Err(e);
            },
        };
        let neq = match read_operator::<T>(obj, "neq", target) {
            Ok(v) => v,
            Err(e) => {
                return Err(e);
            },
        };
        Ok(BaseFilterOps { eq, neq })
    }

    fn add_federation_fields(fields: &mut Vec<String>) {
        push_name(fields, "eq");
        push_name(fields, "neq");
        proof {
            assert(texts(fields@) =~= texts(old(fields)@) + names_of(Self::fields_spec()));
        }
    }
}

impl<T: ScalarType> BaseFilterOps<T> {
    /// The names of the set are `eq` and `neq`.
    pub proof fn lemma_names(key: Seq<char>)
        ensures
            names_of(Self::fields_spec()) == seq!["eq"@, "neq"@],
            names_of(Self::fields_spec()).contains(key) <==> (key == "eq"@ || key == "neq"@),
    {
        let names = names_of(Self::fields_spec());
        assert(names =~= seq!["eq"@, "neq"@]);
        assert(names[0] == "eq"@);
        assert(names[1] == "neq"@);
    }
}

/// The operators of a text: `eq`, `neq` and the pattern `like`.
#[derive(Debug, Clone, PartialEq, Eq)]
pub struct StringFilterOps {
    pub ops: BaseFilterOps<String>,
    pub like: Option<String>,
}

/// The mathematical content of a [`StringFilterOps`].
pub ghost struct StringOpsView {
    pub ops: BaseOpsView<Seq<char>>,
    pub like: Option<Seq<char>>,
}

impl View for StringFilterOps {
    type V = StringOpsView;

    open spec fn view(&self) -> StringOpsView {
        StringOpsView { ops: self.ops@, like: present(self.like) }
    }
}

impl FilterOps for StringFilterOps {
    open spec fn fields_spec() -> Seq<MetaInputValueView> {
        BaseFilterOps::<String>::fields_spec().push(operator_entry::<String>("like"@))
    }

    open spec fn registered_spec(types: Map<Seq<char>, MetaTypeView>) -> Map<
        Seq<char>,
        MetaTypeView,
    > {
        with_scalar(BaseFilterOps::<String>::registered_spec(types), String::name_spec())
    }

    open spec fn scalars_fit(types: Map<Seq<char>, MetaTypeView>) -> bool {
        BaseFilterOps::<String>::scalars_fit(types)
    }

    open spec fn parse_spec(m: Map<Seq<char>, ValueView>, target: Seq<char>) -> Result<
        StringOpsView,
        FieldErrorView,
    > {
        match BaseFilterOps::<String>::parse_spec(m, target) {
            Err(e) => Err(e),
            Ok(ops) => match read_operator_spec::<String>(m, "like"@, target) {
                Err(e) => Err(e),
                Ok(like) => Ok(StringOpsView { ops, like }),
            },
        }
    }

    open spec fn write_spec(x: StringOpsView, m: Map<Seq<char>, ValueView>) -> Map<
        Seq<char>,
        ValueView,
    > {
        write_operator_spec::<String>(BaseFilterOps::<String>::write_spec(x.ops, m), "like"@, x.like)
    }

    open spec fn absent(x: StringOpsView) -> bool {
        BaseFilterOps::<String>::absent(x.ops) && x.like is None
    }

    open spec fn reads_back(x: StringOpsView) -> bool {
        BaseFilterOps::<String>::reads_back(x.ops) && operator_reads_back::<String>(x.like)
    }

    proof fn lemma_parse_ignores(
        m: Map<Seq<char>, ValueView>,
        key: Seq<char>,
        v: ValueView,
        target: Seq<char>,
    ) {
        Self::lemma_names(key);
        BaseFilterOps::<String>::lemma_names(key);
    }

    proof fn lemma_write_keeps(x: StringOpsView, m: Map<Seq<char>, ValueView>, key: Seq<char>) {
        Self::lemma_names(key);
        BaseFilterOps::<String>::lemma_names(key);
    }

    proof fn lemma_round_trip(x: StringOpsView, m: Map<Seq<char>, ValueView>, target: Seq<char>) {
        Self::lemma_names("eq"@);
        Self::lemma_names("neq"@);
        Self::lemma_names("like"@);
        lemma_operator_names();
    }

    proof fn lemma_absent(x: StringOpsView, m: Map<Seq<char>, ValueView>, target: Seq<char>) {
        Self::lemma_names("eq"@);
        Self::lemma_names("neq"@);
        Self::lemma_names("like"@);
    }

    fn to_value(&self, map: &mut Object) {
        self.ops.to_value(map);
        write_operator::<String>(map, "like", &self.like);
    }

    fn creat_fields_info(registry: &mut Registry, fields: &mut InputFields) {
        BaseFilterOps::<String>::creat_fields_info(registry, fields);
        describe_operator::<String>(registry, fields, "like");
        proof {
            assert(Self::fields_spec().drop_last() =~= BaseFilterOps::<String>::fields_spec());
        }
    }

    fn parse(obj: &Object, target: &str) -> (r: Result<Self, FieldError>) {
        let ops = match BaseFilterOps::<String>::parse(obj, target) {
            Ok(v) => v,
            Err(e) => {
                return Err(e);
            },
        };
        let like = match read_operator::<String>(obj, "like", target) {
            Ok(v) => v,
            Err(e) => {
                return Err(e);
            },
        };
        Ok(StringFilterOps { ops, like })
    }

    fn add_federation_fields(fields: &mut Vec<String>) {
        BaseFilterOps::<String>::add_federation_fields(fields);
        push_name(fields, "like");
        proof {
            lemma_names_push(
                BaseFilterOps::<String>::fields_spec(),
                operator_entry::<String>("like"@),
                "like"@,
            );
            assert(texts(fields@) =~= texts(old(fields)@) + names_of(Self::fields_spec()));
        }
    }
}

impl StringFilterOps {
    /// The names of the set are `eq`, `neq` and `like`.
    pub proof fn lemma_names(key: Seq<char>)
        ensures
            names_of(Self::fields_spec()) == seq!["eq"@, "neq"@, "like"@],
            names_of(Self::fields_spec()).contains(key) <==> (key == "eq"@ || key == "neq"@ || key
                == "like"@),
    {
        let names = names_of(Self::fields_spec());
        assert(names =~= seq!["eq"@, "neq"@, "like"@]);
        assert(names[0] == "eq"@);
        assert(names[1] == "neq"@);
        assert(names[2] == "like"@);
    }
}

/// The operators of a scalar kind that may be missing: those of the kind
/// itself, then `isNull`.
#[derive(Debug, Clone, PartialEq, Eq)]
pub struct OptionFilterOps<T: FilterOps> {
    pub ops: T,
    pub is_null: Option<bool>,
}

/// The mathematical content of an [`OptionFilterOps`].
pub ghost struct OptionOpsView<V> {
    pub ops: V,
    pub is_null: Option<bool>,
}

impl<T: FilterOps> View for OptionFilterOps<T> {
    type V = OptionOpsView<T::V>;

    open spec fn view(&self) -> OptionOpsView<T::V> {
        OptionOpsView { ops: self.ops@, is_null: self.is_null }
    }
}

impl<T: FilterOps> FilterOps for OptionFilterOps<T> {
    open spec fn fields_spec() -> Seq<MetaInputValueView> {
        T::fields_spec().push(operator_entry::<bool>("isNull"@))
    }

    open spec fn registered_spec(types: Map<Seq<char>, MetaTypeView>) -> Map<
        Seq<char>,
        MetaTypeView,
    > {
        with_scalar(T::registered_spec(types), bool::name_spec())
    }

    open spec fn scalars_fit(types: Map<Seq<char>, MetaTypeView>) -> bool {
        T::scalars_fit(types) && scalar_fits(T::registered_spec(types), bool::name_spec())
    }

    open spec fn parse_spec(m: Map<Seq<char>, ValueView>, target: Seq<char>) -> Result<
        OptionOpsView<T::V>,
        FieldErrorView,
    > {
        match T::parse_spec(m, target) {
            Err(e) => Err(e),
            Ok(ops) => match read_operator_spec::<bool>(m, "isNull"@, target) {
                Err(e) => Err(e),
                Ok(is_null) => Ok(OptionOpsView { ops, is_null }),
            },
        }
    }

    open spec fn write_spec(x: OptionOpsView<T::V>, m: Map<Seq<char>, ValueView>) -> Map<
        Seq<char>,
        ValueView,
    > {
        write_operator_spec::<bool>(T::write_spec(x.ops, m), "isNull"@, x.is_null)
    }

    open spec fn absent(x: OptionOpsView<T::V>) -> bool {
        T::absent(x.ops) && x.is_null is None
    }

    open spec fn reads_back(x: OptionOpsView<T::V>) -> bool {
        T::reads_back(x.ops)
    }

    proof fn lemma_parse_ignores(
        m: Map<Seq<char>, ValueView>,
        key: Seq<char>,
        v: ValueView,
        target: Seq<char>,
    ) {
        lemma_names_push(T::fields_spec(), operator_entry::<bool>("isNull"@), key);
        T::lemma_parse_ignores(m, key, v, target);
    }

    proof fn lemma_write_keeps(x: OptionOpsView<T::V>, m: Map<Seq<char>, ValueView>, key: Seq<char>) {
        lemma_names_push(T::fields_spec(), operator_entry::<bool>("isNull"@), key);
        T::lemma_write_keeps(x.ops, m, key);
    }

    proof fn lemma_round_trip(x: OptionOpsView<T::V>, m: Map<Seq<char>, ValueView>, target: Seq<char>) {
        let entry = operator_entry::<bool>("isNull"@);
        let written = T::write_spec(x.ops, m);
        lemma_distinct_push(T::fields_spec(), entry);
        assert(lacks(m, names_of(T::fields_spec()))) by {
            assert forall|k: Seq<char>| names_of(T::fields_spec()).contains(k) implies !m.contains_key(
                k,
            ) by {
                lemma_names_push(T::fields_spec(), entry, k);
            }
        }
        lemma_names_push(T::fields_spec(), entry, "isNull"@);
        T::lemma_round_trip(x.ops, m, target);
        T::lemma_write_keeps(x.ops, m, "isNull"@);
        match x.is_null {
            Some(b) => {
                T::lemma_parse_ignores(written, "isNull"@, ValueView::Boolean(b), target);
            },
            None => {},
        }
    }

    proof fn lemma_absent(x: OptionOpsView<T::V>, m: Map<Seq<char>, ValueView>, target: Seq<char>) {
        let entry = operator_entry::<bool>("isNull"@);
        T::lemma_absent(x.ops, m, target);
        if lacks(m, names_of(Self::fields_spec())) {
            assert(lacks(m, names_of(T::fields_spec()))) by {
                assert forall|k: Seq<char>| names_of(T::fields_spec()).contains(k) implies
                    !m.contains_key(k) by {
                    lemma_names_push(T::fields_spec(), entry, k);
                }
            }
            lemma_names_push(T::fields_spec(), entry, "isNull"@);
        }
    }

    fn to_value(&self, map: &mut Object) {
        self.ops.to_value(map);
        write_operator::<bool>(map, "isNull", &self.is_null);
    }

    fn creat_fields_info(registry: &mut Registry, fields: &mut InputFields) {
        T::creat_fields_info(registry, fields);
        describe_operator::<bool>(registry, fields, "isNull");
        proof {
            assert(Self::fields_spec().drop_last() =~= T::fields_spec());
        }
    }

    fn parse(obj: &Object, target: &str) -> (r: Result<Self, FieldError>) {
        let ops = match T::parse(obj, target) {
            Ok(v) => v,
            Err(e) => {
                return Err(e);
            },
        };
        let is_null = match read_operator::<bool>(obj, "isNull", target) {
            Ok(v) => v,
            Err(e) => {
                return Err(e);
            },
        };
        Ok(OptionFilterOps { ops, is_null })
    }

    fn add_federation_fields(fields: &mut Vec<String>) {
        T::add_federation_fields(fields);
        push_name(fields, "isNull");
        proof {
            lemma_names_push(T::fields_spec(), operator_entry::<bool>("isNull"@), "isNull"@);
            assert(texts(fields@) =~= texts(old(fields)@) + names_of(Self::fields_spec()));
        }
    }
}

} // verus!
