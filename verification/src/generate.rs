//! The filter struct of a record: one filter field for each field of the
//! record that is not skipped, after the field `or` of alternatives.

use vstd::prelude::*;
use vstd::string::StringExecFns;

verus! {

/// A field of a record, as its declaration gives it.
#[derive(Debug, Clone, PartialEq, Eq)]
pub struct QqxField {
    /// The field's name; a field of a tuple struct has none.
    pub ident: Option<String>,
    /// The field's type, as it is written.
    pub ty: String,
    /// Whether the field is left out of the filter.
    pub skip: bool,
}

/// The mathematical content of a [`QqxField`].
pub ghost struct QqxFieldView {
    pub ident: Option<Seq<char>>,
    pub ty: Seq<char>,
    pub skip: bool,
}

impl View for QqxField {
    type V = QqxFieldView;

    open spec fn view(&self) -> QqxFieldView {
        QqxFieldView {
            ident: match self.ident {
                Some(s) => Some(s@),
                None => None,
            },
            ty: self.ty@,
            skip: self.skip,
        }
    }
}

/// What a declaration holds.
#[derive(Debug, Clone, PartialEq, Eq)]
pub enum Data {
    Enum,
    Struct(Vec<QqxField>),
}

/// A declaration that a filter struct is asked for.
#[derive(Debug, Clone, PartialEq, Eq)]
pub struct Qqx {
    pub ident: String,
    pub data: Data,
    pub name: Option<String>,
}

/// Why no filter struct was generated: the message of the fault.
#[derive(Debug, Clone, PartialEq, Eq)]
pub enum GeneratorError {
    Syn(String),
    Darling(String),
}

/// A field of a filter struct.
#[derive(Debug, Clone, PartialEq, Eq)]
pub struct FilterField {
    pub ident: String,
    pub ty: String,
    pub public: bool,
}

/// The mathematical content of a [`FilterField`].
pub ghost struct FilterFieldView {
    pub ident: Seq<char>,
    pub ty: Seq<char>,
    pub public: bool,
}

impl View for FilterField {
    type V = FilterFieldView;

    open spec fn view(&self) -> FilterFieldView {
        FilterFieldView { ident: self.ident@, ty: self.ty@, public: self.public }
    }
}

/// A filter struct and the module that it stands in.
#[derive(Debug, Clone, PartialEq, Eq)]
pub struct FilterStruct {
    pub mod_ident: String,
    pub filter_ident: String,
    pub fields: Vec<FilterField>,
}

/// The content of a list of record fields, in order.
pub open spec fn record_fields(s: Seq<QqxField>) -> Seq<QqxFieldView> {
    Seq::new(s.len(), |i: int| s[i]@)
}

/// The content of a list of filter fields, in order.
pub open spec fn filter_fields(s: Seq<FilterField>) -> Seq<FilterFieldView> {
    Seq::new(s.len(), |i: int| s[i]@)
}

/// Every field has a name.
pub open spec fn all_named(s: Seq<QqxFieldView>) -> bool {
    forall|i: int| 0 <= i < s.len() ==> (#[trigger] s[i]).ident is Some
}

/// The private field of alternatives: a list of filters of the same struct.
pub open spec fn or_field(filter_ident: Seq<char>) -> FilterFieldView {
    FilterFieldView { ident: "or"@, ty: "Option<Vec<"@ + filter_ident + ">>"@, public: false }
}

/// The public filter field for a field of the record: under the same name, a
/// filter on the field's type that may be left out.
pub open spec fn filter_field_of(f: QqxFieldView) -> FilterFieldView {
    FilterFieldView {
        ident: f.ident->Some_0,
        ty: "Option<FieldFilter<"@ + f.ty + ">>"@,
        public: true,
    }
}

/// The filter fields of the record fields that are not skipped, in order.
pub open spec fn kept_fields(s: Seq<QqxFieldView>) -> Seq<FilterFieldView>
    decreases s.len(),
{
    if s.len() == 0 {
        Seq::empty()
    } else if s.last().skip {
        kept_fields(s.drop_last())
    } else {
        kept_fields(s.drop_last()).push(filter_field_of(s.last()))
    }
}

/// The snake case of a text, as the `Inflector` crate writes it.
pub uninterp spec fn snake_case_of(text: Seq<char>) -> Seq<char>;

/// Calls `to_snake_case` of the `Inflector` crate, whose result depends on
/// the text alone.
#[verifier::external_body]
fn snake_case(text: &str) -> (r: String)
    ensures
        r@ == snake_case_of(text@),
{
    inflector::cases::snakecase::to_snake_case(text)
}

/// The message for a declaration that is no struct.
pub open spec fn not_a_struct() -> Seq<char> {
    "Qqx can only be applied to a struct."@
}

/// Generates the filter struct of a declaration: named after the record with
/// `Filter` behind, in a module named by the record's snake case, with the
/// field `or` and then a filter field for each record field that is not
/// skipped. A declaration that is no struct is refused.
pub fn qqx_generate(args: &Qqx) -> (r: Result<FilterStruct, GeneratorError>)
    requires
        args.data matches Data::Struct(fields) ==> all_named(record_fields(fields@)),
    ensures
        match args.data {
            Data::Struct(fields) => match r {
                Ok(out) => {
                    &&& out.mod_ident@ == snake_case_of(args.ident@)
                    &&& out.filter_ident@ == args.ident@ + "Filter"@
                    &&& filter_fields(out.fields@) == seq![or_field(out.filter_ident@)]
                        + kept_fields(record_fields(fields@))
                },
                Err(_) => false,
            },
            Data::Enum => match r {
                Ok(_) => false,
                Err(GeneratorError::Syn(message)) => message@ == not_a_struct(),
                Err(GeneratorError::Darling(_)) => false,
            },
        },
{
    let fields = match &args.data {
        Data::Struct(fields) => fields,
        Data::Enum => {
            return Err(GeneratorError::Syn("Qqx can only be applied to a struct.".to_owned()));
        },
    };
    let mod_ident = snake_case(args.ident.as_str());
    let filter_ident = args.ident.clone().concat("Filter");
    let or_ty = "Option<Vec<".to_owned().concat(filter_ident.as_str()).concat(">>");
    let mut out: Vec<FilterField> = Vec::new();
    out.push(FilterField { ident: "or".to_owned(), ty: or_ty, public: false });
    let ghost all = record_fields(fields@);
    let ghost first = or_field(filter_ident@);
    let mut i: usize = 0;
    proof {
        assert(all.take(0) =~= Seq::empty());
        assert(filter_fields(out@) =~= seq![first] + kept_fields(all.take(0)));
    }
    while i < fields.len()
        invariant
            i <= fields.len(),
            all == record_fields(fields@),
            all_named(all),
            filter_fields(out@) == seq![first] + kept_fields(all.take(i as int)),
        decreases fields.len() - i,
    {
        let field = &fields[i];
        let ghost before = out@;
        proof {
            assert(all.take(i + 1).drop_last() =~= all.take(i as int));
            assert(all.take(i + 1).last() == field@);
            assert(all[i as int].ident is Some);
        }
        if !field.skip {
            let ident = match &field.ident {
                Some(name) => name.clone(),
                // Never taken: every field has a name.
                None => String::new(),
            };
            let ty = "Option<FieldFilter<".to_owned().concat(field.ty.as_str()).concat(">>");
            out.push(FilterField { ident, ty, public: true });
            proof {
                assert(filter_fields(out@) =~= filter_fields(before).push(filter_field_of(field@)));
                assert(filter_fields(out@) =~= seq![first] + kept_fields(all.take(i + 1)));
            }
        }
        i = i + 1;
    }
    proof {
        assert(all.take(i as int) =~= all);
    }
    Ok(FilterStruct { mod_ident, filter_ident, fields: out })
}

} // verus!
