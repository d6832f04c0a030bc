//! The requests of the rc HTTP API: where they go and the JSON object they carry.
use vstd::prelude::*;
use vstd::string::*;

use crate::error::{labelled, Error};
use crate::filter::RcFilter;

verus! {

/// A JSON value that holds no object.
#[derive(Debug)]
pub enum Leaf {
    Text(String),
    Flag(bool),
    Number(u64),
    Texts(Vec<String>),
}

/// A named leaf of an inner object.
#[derive(Debug)]
pub struct LeafField {
    pub key: String,
    pub value: Leaf,
}

/// A JSON value of a request body.
#[derive(Debug)]
pub enum Value {
    Leaf(Leaf),
    Object(Vec<LeafField>),
}

/// A named value of a request body.
#[derive(Debug)]
pub struct Field {
    pub key: String,
    pub value: Value,
}

/// A POST request to the rc API.
#[derive(Debug)]
pub struct RcRequest {
    /// The URL to post to.
    pub url: String,
    /// The rc command, as it stands in the URL.
    pub path: String,
    /// The fields of the JSON object to send, in order.
    pub body: Vec<Field>,
}

/// A [`Leaf`] with its texts as character sequences.
pub enum LeafView {
    Text(Seq<char>),
    Flag(bool),
    Number(u64),
    Texts(Seq<Seq<char>>),
}

/// A [`LeafField`] with its texts as character sequences.
pub struct LeafFieldView {
    pub key: Seq<char>,
    pub value: LeafView,
}

/// A [`Value`] with its texts as character sequences.
pub enum ValueView {
    Leaf(LeafView),
    Object(Seq<LeafFieldView>),
}

/// A [`Field`] with its texts as character sequences.
pub struct FieldView {
    pub key: Seq<char>,
    pub value: ValueView,
}

/// An [`RcRequest`] with its texts as character sequences.
#[verifier::ext_equal]
pub struct RequestView {
    pub url: Seq<char>,
    pub path: Seq<char>,
    pub body: Seq<FieldView>,
}

impl View for Leaf {
    type V = LeafView;

    open spec fn view(&self) -> LeafView {
        match self {
            Leaf::Text(t) => LeafView::Text(t@),
            Leaf::Flag(b) => LeafView::Flag(*b),
            Leaf::Number(n) => LeafView::Number(*n),
            Leaf::Texts(list) => LeafView::Texts(crate::text::texts_view(list@)),
        }
    }
}

impl View for LeafField {
    type V = LeafFieldView;

    open spec fn view(&self) -> LeafFieldView {
        LeafFieldView { key: self.key@, value: self.value@ }
    }
}

/// The views of the fields of an inner object.
pub open spec fn leaf_fields_view(fields: Seq<LeafField>) -> Seq<LeafFieldView> {
    Seq::new(fields.len(), |i: int| fields[i]@)
}

impl View for Value {
    type V = ValueView;

    open spec fn view(&self) -> ValueView {
        match self {
            Value::Leaf(leaf) => ValueView::Leaf(leaf@),
            Value::Object(fields) => ValueView::Object(leaf_fields_view(fields@)),
        }
    }
}

impl View for Field {
    type V = FieldView;

    open spec fn view(&self) -> FieldView {
        FieldView { key: self.key@, value: self.value@ }
    }
}

/// The views of the fields of a request body.
pub open spec fn fields_view(fields: Seq<Field>) -> Seq<FieldView> {
    Seq::new(fields.len(), |i: int| fields[i]@)
}

impl View for RcRequest {
    type V = RequestView;

    open spec fn view(&self) -> RequestView {
        RequestView { url: self.url@, path: self.path@, body: fields_view(self.body@) }
    }
}

/// A text field.
pub open spec fn text_entry(key: Seq<char>, value: Seq<char>) -> FieldView {
    FieldView { key, value: ValueView::Leaf(LeafView::Text(value)) }
}

/// A boolean field.
pub open spec fn flag_entry(key: Seq<char>, value: bool) -> FieldView {
    FieldView { key, value: ValueView::Leaf(LeafView::Flag(value)) }
}

/// A numeric field.
pub open spec fn number_entry(key: Seq<char>, value: u64) -> FieldView {
    FieldView { key, value: ValueView::Leaf(LeafView::Number(value)) }
}

/// A field that holds an object.
pub open spec fn object_entry(key: Seq<char>, fields: Seq<LeafFieldView>) -> FieldView {
    FieldView { key, value: ValueView::Object(fields) }
}

/// A text within an object.
pub open spec fn text_leaf(key: Seq<char>, value: Seq<char>) -> LeafFieldView {
    LeafFieldView { key, value: LeafView::Text(value) }
}

/// A boolean within an object.
pub open spec fn flag_leaf(key: Seq<char>, value: bool) -> LeafFieldView {
    LeafFieldView { key, value: LeafView::Flag(value) }
}

/// A list of rules within a filter object: left out where it is empty.
pub open spec fn rules_leaf(key: Seq<char>, rules: Seq<Seq<char>>) -> Seq<LeafFieldView> {
    if rules.len() == 0 {
        seq![]
    } else {
        seq![LeafFieldView { key, value: LeafView::Texts(rules) }]
    }
}

/// The fields of the `_filter` object.
pub open spec fn filter_fields(filter: crate::filter::FilterView) -> Seq<LeafFieldView> {
    rules_leaf("IncludeRule"@, filter.include_rule) + rules_leaf(
        "ExcludeRule"@,
        filter.exclude_rule,
    )
}

/// The `_filter` field of a job: left out where the filter has no rules.
pub open spec fn filter_entry(filter: crate::filter::FilterView) -> Seq<FieldView> {
    if filter == crate::filter::no_rules() {
        seq![]
    } else {
        seq![object_entry("_filter"@, filter_fields(filter))]
    }
}

/// Makes a text field.
pub(crate) fn text_field(key: &str, value: &str) -> (field: Field)
    ensures
        field@ == text_entry(key@, value@),
{
    Field { key: key.to_owned(), value: Value::Leaf(Leaf::Text(value.to_owned())) }
}

/// Makes a boolean field.
pub(crate) fn flag_field(key: &str, value: bool) -> (field: Field)
    ensures
        field@ == flag_entry(key@, value),
{
    Field { key: key.to_owned(), value: Value::Leaf(Leaf::Flag(value)) }
}

/// Makes a numeric field.
pub(crate) fn number_field(key: &str, value: u64) -> (field: Field)
    ensures
        field@ == number_entry(key@, value),
{
    Field { key: key.to_owned(), value: Value::Leaf(Leaf::Number(value)) }
}

/// Makes a field that holds an object.
pub(crate) fn object_field(key: &str, fields: Vec<LeafField>) -> (field: Field)
    ensures
        field@ == object_entry(key@, leaf_fields_view(fields@)),
{
    Field { key: key.to_owned(), value: Value::Object(fields) }
}

/// Makes a text within an object.
pub(crate) fn leaf_text(key: &str, value: &str) -> (field: LeafField)
    ensures
        field@ == text_leaf(key@, value@),
{
    LeafField { key: key.to_owned(), value: Leaf::Text(value.to_owned()) }
}

/// Makes a boolean within an object.
pub(crate) fn leaf_flag(key: &str, value: bool) -> (field: LeafField)
    ensures
        field@ == flag_leaf(key@, value),
{
    LeafField { key: key.to_owned(), value: Leaf::Flag(value) }
}

impl RcFilter {
    /// The fields of the `_filter` object: `IncludeRule` and `ExcludeRule`, each left
    /// out where it would be empty.
    pub fn into_fields(self) -> (fields: Vec<LeafField>)
        ensures
            leaf_fields_view(fields@) == filter_fields(self@),
            self.include_rule@.len() > 0 ==> fields@.len() > 0 && fields@[0].key@
                == "IncludeRule"@ && fields@[0].value == Leaf::Texts(self.include_rule),
            self.exclude_rule@.len() > 0 ==> fields@.len() > 0 && fields@.last().key@
                == "ExcludeRule"@ && fields@.last().value == Leaf::Texts(self.exclude_rule),
    {
        let ghost whole = self@;
        let mut fields: Vec<LeafField> = Vec::new();
        let RcFilter { include_rule, exclude_rule } = self;
        if include_rule.len() > 0 {
            fields.push(
                LeafField { key: "IncludeRule".to_owned(), value: Leaf::Texts(include_rule) },
            );
        }
        assert(leaf_fields_view(fields@) =~= rules_leaf("IncludeRule"@, whole.include_rule));
        let ghost first = leaf_fields_view(fields@);
        if exclude_rule.len() > 0 {
            fields.push(
                LeafField { key: "ExcludeRule".to_owned(), value: Leaf::Texts(exclude_rule) },
            );
        }
        assert(leaf_fields_view(fields@) =~= first + rules_leaf(
            "ExcludeRule"@,
            whole.exclude_rule,
        ));
        fields
    }
}

/// Puts the `_filter` field at the end of a body, where the filter has rules.
pub(crate) fn push_filter(body: &mut Vec<Field>, filter: RcFilter)
    ensures
        fields_view(final(body)@) == fields_view(old(body)@) + filter_entry(filter@),
{
    let ghost before = fields_view(body@);
    if !filter.is_empty() {
        let field = object_field("_filter", filter.into_fields());
        body.push(field);
        assert(fields_view(body@) =~= before.push(field@));
    }
    assert(fields_view(body@) =~= before + filter_entry(filter@));
}

/// The HTTP status says that the request succeeded.
pub open spec fn success(status: u16) -> bool {
    200 <= status < 300
}

/// Tells whether an HTTP status says that the request succeeded.
pub fn is_success(status: u16) -> (yes: bool)
    ensures
        yes == success(status),
        yes == (200 <= status <= 299),
{
    200 <= status && status < 300
}

/// The error for an answer to `path` whose HTTP status is no success.
pub open spec fn rc_error(path: Seq<char>, answer: Seq<char>) -> crate::error::ErrorView {
    crate::error::ErrorView::Rc("rc/"@ + path + " HTTP error: "@ + answer)
}

impl RcRequest {
    /// Judges the answer to this request by its HTTP status. `answer` is the text of
    /// the answer; it goes into the error where the status is no success.
    pub fn judge(&self, status: u16, answer: &str) -> (verdict: Result<(), Error>)
        ensures
            verdict is Ok <==> success(status),
            verdict is Ok <==> 200 <= status <= 299,
            verdict matches Err(e) ==> e@ == rc_error(self@.path, answer@),
            verdict matches Err(e) ==> (e matches Error::Rc(message) && message@ == "rc/"@
                + self.path@ + " HTTP error: "@ + answer@),
    {
        if is_success(status) {
            Ok(())
        } else {
            let mut message = labelled("rc/", self.path.as_str());
            message.append(" HTTP error: ");
            message.append(answer);
            Err(Error::Rc(message))
        }
    }
}

/// A success is a status from 200 up to 299, and a refusal is told by the command and the
/// whole answer.
pub proof fn refusals_say_what_was_refused(status: u16, path: Seq<char>, answer: Seq<char>)
    ensures
        success(status) <==> 200 <= status <= 299,
        rc_error(path, answer) == crate::error::ErrorView::Rc(
            "rc/"@ + path + " HTTP error: "@ + answer,
        ),
{
}

/// Fields hold the key and the value that they are made of.
pub proof fn fields_hold_what_they_are_given(
    key: Seq<char>,
    text: Seq<char>,
    flag: bool,
    number: u64,
    inner: Seq<LeafFieldView>,
)
    ensures
        text_entry(key, text) == (FieldView { key, value: ValueView::Leaf(LeafView::Text(text)) }),
        flag_entry(key, flag) == (FieldView { key, value: ValueView::Leaf(LeafView::Flag(flag)) }),
        number_entry(key, number) == (FieldView {
            key,
            value: ValueView::Leaf(LeafView::Number(number)),
        }),
        object_entry(key, inner) == (FieldView { key, value: ValueView::Object(inner) }),
        text_leaf(key, text) == (LeafFieldView { key, value: LeafView::Text(text) }),
        flag_leaf(key, flag) == (LeafFieldView { key, value: LeafView::Flag(flag) }),
{
}

/// Views of a request keep all of it: the texts, flags, numbers and lists under their keys,
/// in order.
pub proof fn requests_are_viewed_whole(
    req: RcRequest,
    fields: Seq<LeafField>,
    key: String,
    text: String,
    flag: bool,
    number: u64,
    list: Vec<String>,
    inner: Vec<LeafField>,
    leaf: Leaf,
    i: int,
)
    ensures
        req@.url == req.url@,
        req@.path == req.path@,
        req@.body.len() == req.body@.len(),
        0 <= i < req.body@.len() ==> req@.body[i] == req.body@[i]@,
        leaf_fields_view(fields).len() == fields.len(),
        0 <= i < fields.len() ==> leaf_fields_view(fields)[i].key == fields[i].key@,
        0 <= i < fields.len() ==> leaf_fields_view(fields)[i].value == fields[i].value@,
        Leaf::Text(text)@ == LeafView::Text(text@),
        Leaf::Flag(flag)@ == LeafView::Flag(flag),
        Leaf::Number(number)@ == LeafView::Number(number),
        Leaf::Texts(list)@ matches LeafView::Texts(view) && view.len() == list@.len() && (0 <= i
            < list@.len() ==> view[i] == list@[i]@),
        (Field { key, value: Value::Leaf(leaf) })@ == (FieldView {
            key: key@,
            value: ValueView::Leaf(leaf@),
        }),
        (Field { key, value: Value::Object(inner) })@ == (FieldView {
            key: key@,
            value: ValueView::Object(leaf_fields_view(inner@)),
        }),
{
}

/// Every rule is sent: the `_filter` object holds the whole list of includes under
/// `IncludeRule` and the whole list of excludes under `ExcludeRule`, in order, each just
/// where it is not empty; and it is itself sent just where either is there.
pub proof fn every_rule_is_sent(filter: crate::filter::FilterView)
    ensures
        filter.include_rule.len() > 0 <==> exists|i: int|
            0 <= i < filter_fields(filter).len() && (#[trigger] filter_fields(filter)[i]).key
                == "IncludeRule"@,
        filter.exclude_rule.len() > 0 <==> exists|i: int|
            0 <= i < filter_fields(filter).len() && (#[trigger] filter_fields(filter)[i]).key
                == "ExcludeRule"@,
        forall|i: int|
            0 <= i < filter_fields(filter).len() ==> {
                let field = #[trigger] filter_fields(filter)[i];
                ||| field == (LeafFieldView {
                    key: "IncludeRule"@,
                    value: LeafView::Texts(filter.include_rule),
                })
                ||| field == (LeafFieldView {
                    key: "ExcludeRule"@,
                    value: LeafView::Texts(filter.exclude_rule),
                })
            },
        filter_fields(filter).len() <= 2,
        filter.include_rule.len() == 0 && filter.exclude_rule.len() == 0 ==> filter_entry(
            filter,
        ).len() == 0,
        filter.include_rule.len() > 0 || filter.exclude_rule.len() > 0 ==> filter_entry(filter)
            == seq![
            FieldView { key: "_filter"@, value: ValueView::Object(filter_fields(filter)) },
        ],
{
    reveal_strlit("IncludeRule");
    reveal_strlit("ExcludeRule");
    assert("IncludeRule"@[0] == 'I');
    assert("ExcludeRule"@[0] == 'E');
    let fields = filter_fields(filter);
    if filter.include_rule.len() > 0 {
        assert(fields[0].key == "IncludeRule"@);
    }
    if filter.exclude_rule.len() > 0 {
        assert(fields[fields.len() - 1].key == "ExcludeRule"@);
    }
    if filter.include_rule.len() == 0 && filter.exclude_rule.len() == 0 {
        assert(filter =~= crate::filter::no_rules());
    }
}

} // verus!
