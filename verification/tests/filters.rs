use qqx::field_filter::{join_names, FieldFilter};
use qqx::filter_ops::{BaseFilterOps, FilterOps, OptionFilterOps, StringFilterOps};
use qqx::generate::{qqx_generate, Data, FilterField, GeneratorError, Qqx, QqxField};
use async_graphql::indexmap::IndexMap;
use qqx::registry::{insert_field, InputFields, MetaInputValue, MetaType, Registry};
use qqx::scalar::{Date, ScalarType, Uuid};
use qqx::value::{ErrorKind, FieldError, Input, Object, Value};

fn text(s: &str) -> Value {
    Value::String(s.to_owned())
}

fn object(entries: Vec<(&str, Value)>) -> Object {
    let mut obj = Object::new();
    for (key, value) in entries {
        obj.insert(key.to_owned(), value);
    }
    obj
}

fn written(input: Input) -> Object {
    match input {
        Input::Object(obj) => obj,
        Input::Leaf(v) => panic!("no object: {:?}", v),
    }
}

fn entry(name: &str, ty: &str) -> MetaInputValue {
    MetaInputValue {
        name: name.to_owned(),
        ty: ty.to_owned(),
        default_value: None,
        visible: true,
        is_secret: false,
    }
}

fn scalar_name(ty: Option<&MetaType>) -> Option<String> {
    match ty {
        Some(MetaType::Scalar { name }) => Some(name.clone()),
        _ => None,
    }
}

fn input_object(ty: Option<&MetaType>) -> Option<(String, Vec<(String, MetaInputValue)>)> {
    match ty {
        Some(MetaType::InputObject { name, input_fields }) => Some((
            name.clone(),
            input_fields.iter().map(|(key, field)| (key.clone(), field.clone())).collect(),
        )),
        _ => None,
    }
}

fn keyed(name: &str, ty: &str) -> (String, MetaInputValue) {
    (name.to_owned(), entry(name, ty))
}

fn empty_fields() -> InputFields {
    IndexMap::new()
}

const ID_TEXT: &str = "936da01f-9abd-4d9d-80c7-02af85c822a8";
const ID_BITS: u128 = 0x936DA01F9ABD4D9D80C702AF85C822A8;

#[test]
fn empty_object_is_no_constraint() {
    let filter = FieldFilter::<String>::parse(Some(Input::Object(Object::new()))).unwrap();
    assert_eq!(filter.ops.ops.eq, None);
    assert_eq!(filter.ops.ops.neq, None);
    assert_eq!(filter.ops.like, None);
    assert!(written(filter.to_value()).is_empty());
}

#[test]
fn text_filter_reads_and_writes_eq() {
    let input = Input::Object(object(vec![("eq", text("abc"))]));
    let filter = FieldFilter::<String>::parse(Some(input)).unwrap();
    assert_eq!(filter.ops.ops.eq, Some("abc".to_owned()));
    assert_eq!(filter.ops.ops.neq, None);
    assert_eq!(filter.ops.like, None);
    let out = written(filter.to_value());
    assert_eq!(out.get("eq"), Some(&text("abc")));
    assert_eq!(out.get("neq"), None);
    assert_eq!(out.get("like"), None);
}

#[test]
fn optional_text_filter_reads_is_null() {
    let input = Input::Object(object(vec![("isNull", Value::Boolean(true))]));
    let filter = FieldFilter::<Option<String>>::parse(Some(input)).unwrap();
    assert_eq!(filter.ops.is_null, Some(true));
    assert_eq!(filter.ops.ops.ops.eq, None);
    assert_eq!(filter.ops.ops.ops.neq, None);
    assert_eq!(filter.ops.ops.like, None);
    assert_eq!(
        FieldFilter::<Option<String>>::federation_fields(),
        Some("{ eq neq like isNull }".to_owned())
    );
    let out = written(filter.to_value());
    assert_eq!(out.get("isNull"), Some(&Value::Boolean(true)));
    assert_eq!(out.get("eq"), None);
}

#[test]
fn unknown_keys_are_ignored() {
    let input = Input::Object(object(vec![("foo", Value::Number("1".to_owned()))]));
    let filter = FieldFilter::<Uuid>::parse(Some(input)).unwrap();
    assert_eq!(filter.ops.eq, None);
    assert_eq!(filter.ops.neq, None);
}

#[test]
fn input_that_is_no_object_is_a_type_mismatch() {
    let err = FieldFilter::<String>::parse(Some(Input::Leaf(text("not an object")))).unwrap_err();
    assert_eq!(
        err,
        FieldError {
            kind: ErrorKind::TypeMismatch,
            target: "StringFieldFilter".to_owned(),
            field: None,
            expected: "StringFieldFilter".to_owned(),
            found: text("not an object"),
        }
    );
    let err = FieldFilter::<Option<Date>>::parse(Some(Input::Leaf(Value::List))).unwrap_err();
    assert_eq!(err.kind, ErrorKind::TypeMismatch);
    assert_eq!(err.target, "OptionalDateFieldFilter");
    assert_eq!(err.found, Value::List);
    let err = FieldFilter::<Uuid>::parse(None).unwrap_err();
    assert_eq!(err.kind, ErrorKind::TypeMismatch);
    assert_eq!(err.found, Value::Null);
    assert_eq!(err.field, None);
}

#[test]
fn null_under_a_key_is_absent() {
    let input = Input::Object(object(vec![("eq", Value::Null), ("like", text("a%"))]));
    let filter = FieldFilter::<String>::parse(Some(input)).unwrap();
    assert_eq!(filter.ops.ops.eq, None);
    assert_eq!(filter.ops.like, Some("a%".to_owned()));
}

#[test]
fn wrong_shape_under_a_key_is_refused_at_that_key() {
    let input = Input::Object(object(vec![("neq", Value::Number("1".to_owned()))]));
    let err = FieldFilter::<String>::parse(Some(input)).unwrap_err();
    assert_eq!(
        err,
        FieldError {
            kind: ErrorKind::TypeMismatch,
            target: "StringFieldFilter".to_owned(),
            field: Some("neq".to_owned()),
            expected: "String".to_owned(),
            found: Value::Number("1".to_owned()),
        }
    );
    let input = Input::Object(object(vec![("isNull", text("yes"))]));
    let err = FieldFilter::<Option<Uuid>>::parse(Some(input)).unwrap_err();
    assert_eq!(err.kind, ErrorKind::TypeMismatch);
    assert_eq!(err.field, Some("isNull".to_owned()));
    assert_eq!(err.expected, "Boolean");
    assert_eq!(err.target, "OptionalUuidFieldFilter");
}

#[test]
fn first_refused_operator_is_reported() {
    let input = Input::Object(object(vec![("neq", Value::List), ("eq", Value::Boolean(true))]));
    let err = FieldFilter::<String>::parse(Some(input)).unwrap_err();
    assert_eq!(err.field, Some("eq".to_owned()));
    assert_eq!(err.found, Value::Boolean(true));
}

#[test]
fn identifier_filter_reads_the_identifier() {
    let input = Input::Object(object(vec![("eq", text(ID_TEXT))]));
    let filter = FieldFilter::<Uuid>::parse(Some(input)).unwrap();
    assert_eq!(filter.ops.eq, Some(Uuid { bits: ID_BITS }));
    assert_eq!(filter.ops.neq, None);
    let upper = Input::Object(object(vec![("neq", text("936DA01F9ABD4D9D80C702AF85C822A8"))]));
    let filter = FieldFilter::<Uuid>::parse(Some(upper)).unwrap();
    assert_eq!(filter.ops.neq, Some(Uuid { bits: ID_BITS }));
}

#[test]
fn identifier_filter_writes_the_hyphenated_text() {
    let filter = FieldFilter::<Uuid> {
        ops: BaseFilterOps { eq: Some(Uuid { bits: ID_BITS }), neq: Some(Uuid { bits: 0 }) },
    };
    let out = written(filter.to_value());
    assert_eq!(out.get("eq"), Some(&text(ID_TEXT)));
    assert_eq!(out.get("neq"), Some(&text("00000000-0000-0000-0000-000000000000")));
    assert_eq!(Uuid { bits: ID_BITS }.text(), ID_TEXT);
}

#[test]
fn malformed_identifier_is_refused() {
    let input = Input::Object(object(vec![("eq", text("nope"))]));
    let err = FieldFilter::<Uuid>::parse(Some(input)).unwrap_err();
    assert_eq!(
        err,
        FieldError {
            kind: ErrorKind::Malformed,
            target: "UuidFieldFilter".to_owned(),
            field: Some("eq".to_owned()),
            expected: "UUID".to_owned(),
            found: text("nope"),
        }
    );
    assert_eq!(Uuid::from_text("nope"), Err(ErrorKind::Malformed));
    assert_eq!(Uuid::from_parsed(None), Err(ErrorKind::Malformed));
    assert_eq!(Uuid::from_parsed(Some(7)), Ok(Uuid { bits: 7 }));
}

#[test]
fn date_filter_reads_and_writes_the_date() {
    let input = Input::Object(object(vec![("neq", text("1994-11-13"))]));
    let filter = FieldFilter::<Date>::parse(Some(input)).unwrap();
    let date = filter.ops.neq.unwrap();
    assert_eq!((date.year(), date.month(), date.day()), (1994, 11, 13));
    assert_eq!(Some(date), Date::from_ymd(1994, 11, 13));
    assert_eq!(filter.ops.eq, None);
    let out = written(filter.to_value());
    assert_eq!(out.get("neq"), Some(&text("1994-11-13")));
    assert_eq!(Date::from_ymd(2000, 2, 24).unwrap().text(), "2000-02-24");
}

#[test]
fn dates_off_the_calendar_are_refused() {
    assert_eq!(Date::from_ymd(2023, 2, 30), None);
    assert_eq!(Date::from_ymd(2023, 13, 1), None);
    assert!(Date::from_ymd(2024, 2, 29).is_some());
    assert_eq!(Date::from_text("2023-02-30"), Err(ErrorKind::Malformed));
    assert_eq!(Date::from_text("yesterday"), Err(ErrorKind::Malformed));
    let input = Input::Object(object(vec![("eq", text("1994-13-40"))]));
    let err = FieldFilter::<Date>::parse(Some(input)).unwrap_err();
    assert_eq!(err.kind, ErrorKind::Malformed);
    assert_eq!(err.expected, "NaiveDate");
    assert_eq!(err.field, Some("eq".to_owned()));
    let input = Input::Object(object(vec![("eq", Value::Boolean(false))]));
    let err = FieldFilter::<Date>::parse(Some(input)).unwrap_err();
    assert_eq!(err.kind, ErrorKind::TypeMismatch);
}

#[test]
fn what_is_written_parses_as_the_same_filter() {
    let ops = OptionFilterOps {
        ops: StringFilterOps {
            ops: BaseFilterOps { eq: Some("a".to_owned()), neq: None },
            like: Some("%b%".to_owned()),
        },
        is_null: Some(false),
    };
    let filter = FieldFilter::<Option<String>> { ops: ops.clone() };
    let back = FieldFilter::<Option<String>>::parse(Some(filter.to_value())).unwrap();
    assert_eq!(back.ops, ops);

    let ops = BaseFilterOps { eq: Some(Uuid { bits: ID_BITS }), neq: Some(Uuid { bits: 1 }) };
    let filter = FieldFilter::<Uuid> { ops: ops.clone() };
    assert_eq!(FieldFilter::<Uuid>::parse(Some(filter.to_value())).unwrap().ops, ops);

    let ops = OptionFilterOps {
        ops: BaseFilterOps { eq: Date::from_ymd(-44, 3, 15), neq: Date::from_ymd(12000, 1, 1) },
        is_null: None,
    };
    assert!(ops.ops.eq.is_some() && ops.ops.neq.is_some());
    let filter = FieldFilter::<Option<Date>> { ops: ops.clone() };
    assert_eq!(FieldFilter::<Option<Date>>::parse(Some(filter.to_value())).unwrap().ops, ops);
}

#[test]
fn scalars_read_and_write_values() {
    assert_eq!(String::parse(&text("x")), Ok("x".to_owned()));
    assert_eq!(String::parse(&Value::Enum("x".to_owned())), Err(ErrorKind::TypeMismatch));
    assert_eq!(bool::parse(&Value::Boolean(true)), Ok(true));
    assert_eq!(bool::parse(&Value::Null), Err(ErrorKind::TypeMismatch));
    assert_eq!(Uuid::parse(&Value::Object), Err(ErrorKind::TypeMismatch));
    assert_eq!("x".to_owned().to_value(), text("x"));
    assert_eq!(false.to_value(), Value::Boolean(false));
    assert_eq!(String::schema_name(), "String");
    assert_eq!(bool::schema_name(), "Boolean");
    assert_eq!(Uuid::schema_name(), "UUID");
    assert_eq!(Date::schema_name(), "NaiveDate");
    assert_eq!(text("x").duplicate(), text("x"));
}

#[test]
fn federation_fields_list_the_names_in_order() {
    assert_eq!(FieldFilter::<String>::federation_fields(), Some("{ eq neq like }".to_owned()));
    assert_eq!(FieldFilter::<Uuid>::federation_fields(), Some("{ eq neq }".to_owned()));
    assert_eq!(FieldFilter::<Date>::federation_fields(), Some("{ eq neq }".to_owned()));
    assert_eq!(
        FieldFilter::<Option<Uuid>>::federation_fields(),
        Some("{ eq neq isNull }".to_owned())
    );
    let mut names = vec!["first".to_owned()];
    OptionFilterOps::<StringFilterOps>::add_federation_fields(&mut names);
    assert_eq!(names, vec!["first", "eq", "neq", "like", "isNull"]);
}

#[test]
fn names_are_joined_with_the_separator() {
    assert_eq!(join_names(&vec![], " "), "");
    assert_eq!(join_names(&vec!["a".to_owned()], ", "), "a");
    assert_eq!(join_names(&vec!["a".to_owned(), "b".to_owned(), "c".to_owned()], ", "), "a, b, c");
}

#[test]
fn filter_types_have_the_names_of_their_kinds() {
    assert_eq!(FieldFilter::<String>::schema_name(), "StringFieldFilter");
    assert_eq!(FieldFilter::<Option<String>>::schema_name(), "OptionalStringFieldFilter");
    assert_eq!(FieldFilter::<Uuid>::schema_name(), "UuidFieldFilter");
    assert_eq!(FieldFilter::<Option<Uuid>>::schema_name(), "OptionalUuidFieldFilter");
    assert_eq!(FieldFilter::<Date>::schema_name(), "DateFieldFilter");
    assert_eq!(FieldFilter::<Option<Date>>::schema_name(), "OptionalDateFieldFilter");
}

#[test]
fn registration_describes_the_operators() {
    let mut registry = Registry::new();
    let reference = FieldFilter::<Option<String>>::create_type_info(&mut registry);
    assert_eq!(reference, "OptionalStringFieldFilter!");
    assert_eq!(scalar_name(registry.get("String")), Some("String".to_owned()));
    assert_eq!(scalar_name(registry.get("Boolean")), Some("Boolean".to_owned()));
    assert_eq!(
        input_object(registry.get("OptionalStringFieldFilter")),
        Some((
            "OptionalStringFieldFilter".to_owned(),
            vec![
                keyed("eq", "String"),
                keyed("neq", "String"),
                keyed("like", "String"),
                keyed("isNull", "Boolean"),
            ],
        ))
    );
    assert!(!registry.contains("UUID"));

    let mut fields = empty_fields();
    assert!(fields.is_empty());
    BaseFilterOps::<Uuid>::creat_fields_info(&mut registry, &mut fields);
    let listed: Vec<_> = fields.into_iter().collect();
    assert_eq!(listed, vec![keyed("eq", "UUID"), keyed("neq", "UUID")]);
    assert!(registry.contains("UUID"));
}

#[test]
fn registration_is_idempotent() {
    let mut registry = Registry::new();
    let first = FieldFilter::<Date>::generic_create_type_info(&mut registry, "DateFieldFilter");
    let after_first = input_object(registry.get("DateFieldFilter"));
    let second = FieldFilter::<Date>::generic_create_type_info(&mut registry, "DateFieldFilter");
    assert_eq!(first, "DateFieldFilter!");
    assert_eq!(first, second);
    assert_eq!(input_object(registry.get("DateFieldFilter")), after_first);
    assert_eq!(
        after_first,
        Some((
            "DateFieldFilter".to_owned(),
            vec![keyed("eq", "NaiveDate"), keyed("neq", "NaiveDate")],
        ))
    );
    assert!(registry.contains("NaiveDate"));
    assert!(!registry.contains("String"));
}

#[test]
fn a_later_entry_replaces_an_earlier_one() {
    let mut obj = Object::new();
    assert!(obj.is_empty());
    assert!(!obj.contains_key("eq"));
    obj.insert("eq".to_owned(), text("a"));
    obj.insert("neq".to_owned(), text("b"));
    obj.insert("eq".to_owned(), text("c"));
    assert!(!obj.is_empty());
    assert!(obj.contains_key("eq"));
    assert_eq!(obj.get("eq"), Some(&text("c")));
    assert_eq!(obj.get("neq"), Some(&text("b")));
    assert_eq!(obj.get("like"), None);
    assert_eq!(obj.entries().len(), 3);
}

#[test]
fn filter_struct_has_or_and_the_fields_that_are_kept() {
    let field = |name: &str, ty: &str, skip: bool| QqxField {
        ident: Some(name.to_owned()),
        ty: ty.to_owned(),
        skip,
    };
    let args = Qqx {
        ident: "BlogPost".to_owned(),
        data: Data::Struct(vec![
            field("id", "Uuid", false),
            field("body", "String", true),
            field("title", "Option<String>", false),
        ]),
        name: None,
    };
    let out = qqx_generate(&args).unwrap();
    assert_eq!(out.mod_ident, "blog_post");
    assert_eq!(out.filter_ident, "BlogPostFilter");
    let made = |name: &str, ty: &str, public: bool| FilterField {
        ident: name.to_owned(),
        ty: ty.to_owned(),
        public,
    };
    assert_eq!(
        out.fields,
        vec![
            made("or", "Option<Vec<BlogPostFilter>>", false),
            made("id", "Option<FieldFilter<Uuid>>", true),
            made("title", "Option<FieldFilter<Option<String>>>", true),
        ]
    );
}

#[test]
fn filter_struct_of_an_empty_record_holds_or_alone() {
    let args = Qqx { ident: "Unit".to_owned(), data: Data::Struct(vec![]), name: None };
    let out = qqx_generate(&args).unwrap();
    assert_eq!(out.mod_ident, "unit");
    assert_eq!(out.fields.len(), 1);
    assert_eq!(out.fields[0].ident, "or");
    assert_eq!(out.fields[0].ty, "Option<Vec<UnitFilter>>");
}

#[test]
fn only_a_struct_has_a_filter_struct() {
    let args = Qqx { ident: "Colour".to_owned(), data: Data::Enum, name: None };
    assert_eq!(
        qqx_generate(&args),
        Err(GeneratorError::Syn("Qqx can only be applied to a struct.".to_owned()))
    );
}

fn described_names<O: FilterOps>() -> Vec<String> {
    let mut registry = Registry::new();
    let mut fields = empty_fields();
    O::creat_fields_info(&mut registry, &mut fields);
    fields.into_iter().map(|(_, f)| f.name).collect()
}

fn listed_names<O: FilterOps>() -> Vec<String> {
    let mut names = Vec::new();
    O::add_federation_fields(&mut names);
    names
}

#[test]
fn described_and_listed_names_agree() {
    assert_eq!(described_names::<StringFilterOps>(), vec!["eq", "neq", "like"]);
    assert_eq!(listed_names::<StringFilterOps>(), vec!["eq", "neq", "like"]);
    assert_eq!(described_names::<BaseFilterOps<Uuid>>(), listed_names::<BaseFilterOps<Uuid>>());
    assert_eq!(described_names::<BaseFilterOps<Date>>(), vec!["eq", "neq"]);
    assert_eq!(
        described_names::<OptionFilterOps<BaseFilterOps<Date>>>(),
        listed_names::<OptionFilterOps<BaseFilterOps<Date>>>()
    );
    assert_eq!(
        listed_names::<OptionFilterOps<StringFilterOps>>(),
        vec!["eq", "neq", "like", "isNull"]
    );
}

#[test]
fn every_described_name_is_read() {
    for name in described_names::<OptionFilterOps<StringFilterOps>>() {
        let obj = object(vec![(name.as_str(), Value::List)]);
        let err = OptionFilterOps::<StringFilterOps>::parse(&obj, "T").unwrap_err();
        assert_eq!(err.field, Some(name));
        assert_eq!(err.target, "T");
    }
}

#[test]
fn without_is_null_the_optional_filter_reads_as_the_plain_one() {
    let entries = vec![("eq", text("a")), ("like", text("b%"))];
    let plain = StringFilterOps::parse(&object(entries.clone()), "T").unwrap();
    let lifted = OptionFilterOps::<StringFilterOps>::parse(&object(entries), "T").unwrap();
    assert_eq!(lifted.ops, plain);
    assert_eq!(lifted.is_null, None);
    assert_eq!(plain.ops.eq, Some("a".to_owned()));
    assert_eq!(plain.like, Some("b%".to_owned()));
}

#[test]
fn a_field_put_under_a_taken_name_takes_its_place() {
    let mut fields = empty_fields();
    insert_field(&mut fields, entry("eq", "String"));
    insert_field(&mut fields, entry("neq", "String"));
    insert_field(&mut fields, entry("eq", "UUID"));
    let listed: Vec<_> = fields.into_iter().collect();
    assert_eq!(listed, vec![keyed("eq", "UUID"), keyed("neq", "String")]);

    let mut registry = Registry::new();
    let mut fields = empty_fields();
    insert_field(&mut fields, entry("neq", "Boolean"));
    StringFilterOps::creat_fields_info(&mut registry, &mut fields);
    let listed: Vec<_> = fields.into_iter().collect();
    assert_eq!(
        listed,
        vec![keyed("neq", "String"), keyed("eq", "String"), keyed("like", "String")]
    );
}
