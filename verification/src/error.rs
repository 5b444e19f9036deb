//! Errors of the platform, the validation reports they may carry and the
//! messages written for them.

use vstd::prelude::*;
use crate::text::{
    decimal, decimal_string, lemma_decimal_writes_number, same_text, writes_number,
};

verus! {

/// A parameter of a failed validation rule, as the JSON value it stands for.
#[derive(Debug, Clone, PartialEq, Eq)]
pub enum ParamValue {
    Null,
    Bool(bool),
    Int(i64),
    UInt(u64),
    Text(String),
}

/// The mathematical value of a [`ParamValue`].
pub enum ParamValueView {
    Null,
    Bool(bool),
    Int(i64),
    UInt(u64),
    Text(Seq<char>),
}

impl View for ParamValue {
    type V = ParamValueView;

    open spec fn view(&self) -> ParamValueView {
        match self {
            ParamValue::Null => ParamValueView::Null,
            ParamValue::Bool(b) => ParamValueView::Bool(*b),
            ParamValue::Int(i) => ParamValueView::Int(*i),
            ParamValue::UInt(u) => ParamValueView::UInt(*u),
            ParamValue::Text(s) => ParamValueView::Text(s@),
        }
    }
}

/// The sixteen lower-case hexadecimal digits, in order.
pub open spec fn hex_digits() -> Seq<char> {
    seq!['0', '1', '2', '3', '4', '5', '6', '7', '8', '9', 'a', 'b', 'c', 'd', 'e', 'f']
}

/// How one character is written inside a JSON string: the quote and the
/// backslash are escaped, the control characters below 0x20 take their
/// short escape where JSON has one (`\b \t \n \f \r`) and `\u00XX` in
/// lower-case hexadecimal otherwise; every other character stands as it is.
pub open spec fn json_escape(c: char) -> Seq<char> {
    let n = c as u32;
    if c == '"' {
        seq!['\\', '"']
    } else if c == '\\' {
        seq!['\\', '\\']
    } else if n == 8 {
        seq!['\\', 'b']
    } else if n == 9 {
        seq!['\\', 't']
    } else if n == 10 {
        seq!['\\', 'n']
    } else if n == 12 {
        seq!['\\', 'f']
    } else if n == 13 {
        seq!['\\', 'r']
    } else if n < 32 {
        seq!['\\', 'u', '0', '0', hex_digits()[(n / 16) as int], hex_digits()[(n % 16) as int]]
    } else {
        seq![c]
    }
}

/// The characters of `s`, each written as inside a JSON string.
pub open spec fn json_escaped(s: Seq<char>) -> Seq<char>
    decreases s.len(),
{
    if s.len() == 0 {
        Seq::empty()
    } else {
        json_escaped(s.drop_last()) + json_escape(s.last())
    }
}

/// The text `s` as a JSON string: quoted, with its characters escaped.
pub open spec fn json_string(s: Seq<char>) -> Seq<char> {
    seq!['"'] + json_escaped(s) + seq!['"']
}

/// How std writes the text `s` in debug form: quoted, with its special
/// characters escaped.
pub uninterp spec fn str_debug(s: Seq<char>) -> Seq<char>;

/// A signed integer in decimal, with a leading `-` where it is negative.
pub open spec fn signed_decimal(i: int) -> Seq<char> {
    if i < 0 {
        "-"@ + decimal((-i) as nat)
    } else {
        decimal(i as nat)
    }
}

/// The JSON value that `v` stands for, as `serde_json` displays it.
pub open spec fn param_text(v: ParamValueView) -> Seq<char> {
    match v {
        ParamValueView::Null => "null"@,
        ParamValueView::Bool(b) => if b {
            "true"@
        } else {
            "false"@
        },
        ParamValueView::Int(i) => signed_decimal(i as int),
        ParamValueView::UInt(u) => decimal(u as nat),
        ParamValueView::Text(s) => json_string(s),
    }
}

/// The JSON value that `v` stands for, as `serde_json` writes it in debug form.
pub open spec fn param_debug_text(v: ParamValueView) -> Seq<char> {
    match v {
        ParamValueView::Null => "Null"@,
        ParamValueView::Bool(b) => if b {
            "Bool(true)"@
        } else {
            "Bool(false)"@
        },
        ParamValueView::Int(i) => "Number("@ + signed_decimal(i as int) + ")"@,
        ParamValueView::UInt(u) => "Number("@ + decimal(u as nat) + ")"@,
        ParamValueView::Text(s) => "String("@ + str_debug(s) + ")"@,
    }
}

/// The `Display` of the `serde_json::Value` that `v` stands for: `null`,
/// `true`, `false`, a number in decimal, or a quoted and escaped JSON string.
#[verifier::external_body]
fn json_text_of(v: &ParamValue) -> (r: String)
    ensures
        r@ == param_text(v@),
{
    let value = match v {
        ParamValue::Null => serde_json::Value::Null,
        ParamValue::Bool(b) => serde_json::Value::Bool(*b),
        ParamValue::Int(i) => serde_json::Value::from(*i),
        ParamValue::UInt(u) => serde_json::Value::from(*u),
        ParamValue::Text(s) => serde_json::Value::String(s.clone()),
    };
    value.to_string()
}

/// The `Debug` of the `serde_json::Value` that `v` stands for: `Null`,
/// `Bool(..)`, `Number(..)`, or `String(..)` around std's debug form of the
/// text.
#[verifier::external_body]
fn json_debug_of(v: &ParamValue) -> (r: String)
    ensures
        r@ == param_debug_text(v@),
{
    let value = match v {
        ParamValue::Null => serde_json::Value::Null,
        ParamValue::Bool(b) => serde_json::Value::Bool(*b),
        ParamValue::Int(i) => serde_json::Value::from(*i),
        ParamValue::UInt(u) => serde_json::Value::from(*u),
        ParamValue::Text(s) => serde_json::Value::String(s.clone()),
    };
    format!("{:?}", value)
}

/// std's `Debug` of a text: the text quoted, with its special characters
/// escaped. The escaping is named, not stated.
#[verifier::external_body]
fn str_debug_of(s: &str) -> (r: String)
    ensures
        r@ == str_debug(s@),
{
    format!("{:?}", s)
}

/// One failed validation rule of a field: its code, an optional message that
/// replaces the generated one, and its parameters, each name once.
#[derive(Debug, Clone, PartialEq, Eq)]
pub struct FieldError {
    pub code: String,
    pub message: Option<String>,
    pub params: Vec<(String, ParamValue)>,
}

/// The value of the first parameter named `key`.
pub open spec fn lookup(params: Seq<(String, ParamValue)>, key: Seq<char>) -> Option<ParamValueView>
    decreases params.len(),
{
    if params.len() == 0 {
        None
    } else if params[0].0@ == key {
        Some(params[0].1@)
    } else {
        lookup(params.skip(1), key)
    }
}

/// Whether no parameter name occurs twice.
pub open spec fn distinct_names(params: Seq<(String, ParamValue)>) -> bool {
    forall|i: int, j: int| 0 <= i < j < params.len() ==> params[i].0@ != params[j].0@
}

/// The sentence that describes a failed length rule with these bounds.
pub open spec fn length_message(
    min: Option<ParamValueView>,
    max: Option<ParamValueView>,
    equal: Option<ParamValueView>,
) -> Seq<char> {
    match (min, max) {
        (Some(a), None) => "must be at least "@ + param_text(a) + " characters long"@,
        (None, Some(b)) => "must be less than or equal to "@ + param_text(b) + " characters long"@,
        (Some(a), Some(b)) => "must be between "@ + param_text(a) + " and "@ + param_text(b)
            + " characters long"@,
        (None, None) => "must be equal to "@ + param_text(equal->0) + " characters long"@,
    }
}

/// One parameter in debug form: `"name": value`.
pub open spec fn param_debug(p: (String, ParamValue)) -> Seq<char> {
    str_debug(p.0@) + ": "@ + param_debug_text(p.1@)
}

/// The parameters in debug form, separated by `, `.
pub open spec fn params_debug_body(params: Seq<(String, ParamValue)>) -> Seq<char>
    decreases params.len(),
{
    if params.len() == 0 {
        Seq::empty()
    } else if params.len() == 1 {
        param_debug(params[0])
    } else {
        params_debug_body(params.drop_last()) + ", "@ + param_debug(params.last())
    }
}

/// The parameters in the debug form of a map: `{"name": value, ...}`.
pub open spec fn params_debug(params: Seq<(String, ParamValue)>) -> Seq<char> {
    "{"@ + params_debug_body(params) + "}"@
}

impl FieldError {
    /// Whether the parameters form a map: no name occurs twice.
    pub open spec fn well_formed(self) -> bool {
        distinct_names(self.params@)
    }

    /// Whether a message can be written for this error: a failed length rule
    /// without a message of its own must carry a `min`, `max` or `equal` bound.
    pub open spec fn has_message(self) -> bool {
        ||| self.message is Some
        ||| self.code@ != "length"@
        ||| lookup(self.params@, "min"@) is Some
        ||| lookup(self.params@, "max"@) is Some
        ||| lookup(self.params@, "equal"@) is Some
    }

    /// The message written for this error.
    pub open spec fn message_text(self) -> Seq<char> {
        match self.message {
            Some(m) => m@,
            None => if self.code@ == "length"@ {
                length_message(
                    lookup(self.params@, "min"@),
                    lookup(self.params@, "max"@),
                    lookup(self.params@, "equal"@),
                )
            } else {
                self.code@ + " ["@ + params_debug(self.params@) + "]"@
            },
        }
    }
}

impl FieldError {
    /// Tells whether no parameter name occurs twice.
    pub fn names_distinct(&self) -> (r: bool)
        ensures
            r == self.well_formed(),
    {
        let n: usize = self.params.len();
        let mut i: usize = 0;
        while i < n
            invariant
                n == self.params@.len(),
                i <= n,
                forall|a: int, b: int| 0 <= a < i && a < b < n ==> self.params@[a].0@ != self.params@[b].0@,
            decreases n - i,
        {
            let mut j: usize = i + 1;
            while j < n
                invariant
                    n == self.params@.len(),
                    i < n,
                    i + 1 <= j <= n,
                    forall|a: int, b: int| 0 <= a < i && a < b < n ==> self.params@[a].0@ != self.params@[b].0@,
                    forall|b: int| i < b < j ==> self.params@[i as int].0@ != self.params@[b].0@,
                decreases n - j,
            {
                if same_text(self.params[i].0.as_str(), self.params[j].0.as_str()) {
                    return false;
                }
                j = j + 1;
            }
            i = i + 1;
        }
        true
    }

    /// Tells whether a message can be written for this error.
    pub fn message_available(&self) -> (r: bool)
        ensures
            r == self.has_message(),
    {
        if self.message.is_some() || !same_text(self.code.as_str(), "length") {
            return true;
        }
        find_param(&self.params, "min").is_some() || find_param(&self.params, "max").is_some()
            || find_param(&self.params, "equal").is_some()
    }
}

/// Finds the first parameter named `key`.
fn find_param<'a>(params: &'a Vec<(String, ParamValue)>, key: &str) -> (r: Option<&'a ParamValue>)
    ensures
        match r {
            Some(v) => lookup(params@, key@) == Some(v@),
            None => lookup(params@, key@) is None,
        },
{
    let mut i: usize = 0;
    assert(params@.skip(0) =~= params@);
    while i < params.len()
        invariant
            i <= params@.len(),
            lookup(params@, key@) == lookup(params@.skip(i as int), key@),
        decreases params@.len() - i,
    {
        assert(params@.skip(i as int)[0] == params@[i as int]);
        if same_text(params[i].0.as_str(), key) {
            return Some(&params[i].1);
        }
        assert(params@.skip(i as int).skip(1) =~= params@.skip(i + 1));
        i = i + 1;
    }
    None
}

/// Writes the parameters in the debug form of a map.
fn write_params_debug(params: &Vec<(String, ParamValue)>) -> (r: String)
    ensures
        r@ == params_debug(params@),
{
    let mut body = String::new();
    let mut i: usize = 0;
    assert(params@.take(0) =~= Seq::<(String, ParamValue)>::empty());
    while i < params.len()
        invariant
            i <= params@.len(),
            body@ == params_debug_body(params@.take(i as int)),
        decreases params@.len() - i,
    {
        let name = str_debug_of(params[i].0.as_str());
        let value = json_debug_of(&params[i].1);
        assert(params@.take(i + 1).drop_last() =~= params@.take(i as int));
        assert(params@.take(i + 1).last() == params@[i as int]);
        if i > 0 {
            body.append(", ");
        } else {
            assert(params@.take(1) =~= seq![params@[0]]);
        }
        body.append(name.as_str());
        body.append(": ");
        body.append(value.as_str());
        i = i + 1;
    }
    assert(params@.take(params@.len() as int) =~= params@);
    let mut r = String::from_str("{");
    r.append(body.as_str());
    r.append("}");
    r
}

/// The message written for one failed validation rule: its own message if
/// it has one; for a failed length rule, a sentence built from its bounds;
/// otherwise its code followed by its parameters in debug form.
pub fn error_code_to_message(e: &FieldError) -> (r: String)
    requires
        e.well_formed(),
        e.has_message(),
    ensures
        r@ == e.message_text(),
{
    if let Some(message) = &e.message {
        return message.clone();
    }
    if !same_text(e.code.as_str(), "length") {
        let mut r = e.code.clone();
        r.append(" [");
        let params = write_params_debug(&e.params);
        r.append(params.as_str());
        r.append("]");
        return r;
    }
    let min = find_param(&e.params, "min");
    let max = find_param(&e.params, "max");
    let equal = find_param(&e.params, "equal");
    match (min, max) {
        (Some(a), None) => {
            let mut r = String::from_str("must be at least ");
            r.append(json_text_of(a).as_str());
            r.append(" characters long");
            r
        },
        (None, Some(b)) => {
            let mut r = String::from_str("must be less than or equal to ");
            r.append(json_text_of(b).as_str());
            r.append(" characters long");
            r
        },
        (Some(a), Some(b)) => {
            let mut r = String::from_str("must be between ");
            r.append(json_text_of(a).as_str());
            r.append(" and ");
            r.append(json_text_of(b).as_str());
            r.append(" characters long");
            r
        },
        (None, None) => {
            let eq = equal.unwrap();
            let mut r = String::from_str("must be equal to ");
            r.append(json_text_of(eq).as_str());
            r.append(" characters long");
            r
        },
    }
}


/// What failed under one name of a validation report.
#[derive(Debug, PartialEq, Eq)]
pub enum ErrorsKind {
    /// The name is a nested structure, with a report of its own.
    Struct(Box<ValidationErrors>),
    /// The name is a list; each failing item, by its index, has a report.
    List(Vec<(usize, ValidationErrors)>),
    /// The name is a plain field; these are the rules it failed.
    Field(Vec<FieldError>),
}

/// A validation report: for each name that failed, what failed under it.
/// The entries stand for a map: the order of the entries is the order in
/// which the report is walked, and the first entry is the one reported.
#[derive(Debug, PartialEq, Eq)]
pub struct ValidationErrors {
    pub entries: Vec<(String, ErrorsKind)>,
}

/// Whether no name occurs twice among the entries of a report.
pub open spec fn distinct_keys(entries: Seq<(String, ErrorsKind)>) -> bool {
    forall|i: int, j: int| 0 <= i < j < entries.len() ==> entries[i].0@ != entries[j].0@
}

/// Whether the failing items of a list come in increasing index order, each
/// index once.
pub open spec fn increasing_indices(items: Seq<(usize, ValidationErrors)>) -> bool {
    forall|i: int, j: int| 0 <= i < j < items.len() ==> items[i].0 < items[j].0
}

impl ValidationErrors {
    /// Whether the report is a map at every level: no name twice, list items
    /// by increasing index, and no parameter name twice in a failed rule.
    pub open spec fn well_formed(self) -> bool
        decreases self,
    {
        &&& distinct_keys(self.entries@)
        &&& forall|i: int|
            #![trigger self.entries@[i]]
            0 <= i < self.entries@.len() ==> match self.entries@[i].1 {
                ErrorsKind::Struct(inner) => inner.well_formed(),
                ErrorsKind::List(items) => increasing_indices(items@) && forall|j: int|
                    #![trigger items@[j]]
                    0 <= j < items@.len() ==> items@[j].1.well_formed(),
                ErrorsKind::Field(fields) => forall|j: int|
                    #![trigger fields@[j]]
                    0 <= j < fields@.len() ==> distinct_names(fields@[j].params@),
            }
    }
}

/// The position of the failing item with the smallest index (the first such
/// where an index repeats); 0 for an empty list.
pub open spec fn smallest_pos(items: Seq<(usize, ValidationErrors)>) -> int
    decreases items.len(),
{
    if items.len() <= 1 {
        0
    } else {
        let p = smallest_pos(items.drop_last());
        if items.last().0 < items[p].0 {
            items.len() - 1
        } else {
            p
        }
    }
}

/// The item at `smallest_pos` lies in the list, and no item has a smaller
/// index.
pub proof fn lemma_smallest_pos(items: Seq<(usize, ValidationErrors)>)
    requires
        items.len() > 0,
    ensures
        0 <= smallest_pos(items) < items.len(),
        forall|j: int| 0 <= j < items.len() ==> items[smallest_pos(items)].0 <= #[trigger] items[j].0,
    decreases items.len(),
{
    if items.len() > 1 {
        let init = items.drop_last();
        lemma_smallest_pos(init);
        assert forall|j: int| 0 <= j < items.len() implies items[smallest_pos(items)].0
            <= #[trigger] items[j].0 by {
            if j < items.len() - 1 {
                assert(items[j] == init[j]);
            }
        }
    }
}

/// Finds the position of the failing item with the smallest index.
fn find_smallest(items: &Vec<(usize, ValidationErrors)>) -> (r: usize)
    requires
        items@.len() > 0,
    ensures
        r == smallest_pos(items@),
{
    let mut best: usize = 0;
    let mut i: usize = 1;
    assert(items@.take(1).len() == 1);
    while i < items.len()
        invariant
            1 <= i <= items@.len(),
            best == smallest_pos(items@.take(i as int)),
            best < i,
        decreases items@.len() - i,
    {
        proof {
            lemma_smallest_pos(items@.take(i as int));
        }
        let ghost prefix = items@.take(i + 1);
        assert(prefix.drop_last() =~= items@.take(i as int));
        assert(prefix.last() == items@[i as int]);
        assert(prefix[best as int] == items@[best as int]);
        if items[i].0 < items[best].0 {
            best = i;
        }
        i = i + 1;
    }
    assert(items@.take(items@.len() as int) =~= items@);
    best
}

/// The message for the first failure of `errors`, whose names are written
/// after `path`: the first entry is followed into nested structures and into
/// the item of lists with the smallest index, down to the first rule failed
/// by a field.
pub open spec fn errors_message(path: Seq<char>, errors: ValidationErrors) -> Option<Seq<char>>
    decreases errors,
{
    if errors.entries@.len() == 0 {
        None
    } else {
        let here = path + "."@ + errors.entries@[0].0@;
        match errors.entries@[0].1 {
            ErrorsKind::Struct(inner) => errors_message(here, *inner),
            ErrorsKind::List(items) => if items@.len() == 0 {
                None
            } else {
                let p = smallest_pos(items@);
                proof {
                    lemma_smallest_pos(items@);
                }
                errors_message(here + "["@ + decimal(items@[p].0 as nat) + "]"@, items@[p].1)
            },
            ErrorsKind::Field(fields) => if fields@.len() == 0 {
                None
            } else {
                Some("The field "@ + here + " "@ + fields@[0].message_text())
            },
        }
    }
}

/// Whether a message can be written for the first failure of `errors`.
pub open spec fn errors_reportable(errors: ValidationErrors) -> bool
    decreases errors,
{
    if errors.entries@.len() == 0 {
        true
    } else {
        match errors.entries@[0].1 {
            ErrorsKind::Struct(inner) => errors_reportable(*inner),
            ErrorsKind::List(items) => items@.len() == 0 || {
                proof {
                    lemma_smallest_pos(items@);
                }
                errors_reportable(items@[smallest_pos(items@)].1)
            },
            ErrorsKind::Field(fields) => fields@.len() == 0 || (fields@[0].well_formed()
                && fields@[0].has_message()),
        }
    }
}

/// Tells whether a message can be written for the first failure of `errors`.
pub fn errors_reportable_exec(errors: &ValidationErrors) -> (r: bool)
    ensures
        r == errors_reportable(*errors),
    decreases errors,
{
    if errors.entries.len() == 0 {
        return true;
    }
    match &errors.entries[0].1 {
        ErrorsKind::Struct(inner) => errors_reportable_exec(&**inner),
        ErrorsKind::List(items) => {
            if items.len() == 0 {
                return true;
            }
            let p = find_smallest(items);
            proof {
                lemma_smallest_pos(items@);
            }
            errors_reportable_exec(&items[p].1)
        },
        ErrorsKind::Field(fields) => fields.len() == 0 || (fields[0].names_distinct()
            && fields[0].message_available()),
    }
}

/// Writes the message for the first failure of `errors`, whose names are
/// written after `path`; `None` where the first entry leads to nothing.
pub fn errors_to_message(path: String, errors: &ValidationErrors) -> (r: Option<String>)
    requires
        errors_reportable(*errors),
    ensures
        match r {
            Some(m) => errors_message(path@, *errors) == Some(m@),
            None => errors_message(path@, *errors) is None,
        },
    decreases errors,
{
    if errors.entries.len() == 0 {
        return None;
    }
    let entry = &errors.entries[0];
    let mut here = path;
    here.append(".");
    here.append(entry.0.as_str());
    match &entry.1 {
        ErrorsKind::Struct(inner) => errors_to_message(here, &**inner),
        ErrorsKind::List(items) => {
            if items.len() == 0 {
                None
            } else {
                let p = find_smallest(items);
                proof {
                    lemma_smallest_pos(items@);
                }
                let item = &items[p];
                here.append("[");
                here.append(decimal_string(item.0 as u64).as_str());
                here.append("]");
                errors_to_message(here, &item.1)
            }
        },
        ErrorsKind::Field(fields) => {
            if fields.len() == 0 {
                None
            } else {
                let mut m = String::from_str("The field ");
                m.append(here.as_str());
                m.append(" ");
                m.append(error_code_to_message(&fields[0]).as_str());
                Some(m)
            }
        },
    }
}

/// An error of the platform.
#[derive(Debug, PartialEq, Eq)]
pub enum Error {
    /// A failure described by its message.
    Unkown(String),
    /// A request that did not pass validation.
    ValidationErrors(ValidationErrors),
}

impl Error {
    /// Whether the error can be written as text.
    pub open spec fn displayable(self) -> bool {
        match self {
            Error::Unkown(_) => true,
            Error::ValidationErrors(v) => errors_reportable(v),
        }
    }

    /// The error as text: the message of an unknown failure, or the message
    /// for the first failure of a validation report (empty where there is none).
    pub open spec fn text(self) -> Seq<char> {
        match self {
            Error::Unkown(e) => e@,
            Error::ValidationErrors(v) => match errors_message(Seq::empty(), v) {
                Some(m) => m,
                None => Seq::empty(),
            },
        }
    }

    /// Tells whether the error can be written as text.
    pub fn is_displayable(&self) -> (r: bool)
        ensures
            r == self.displayable(),
    {
        match self {
            Error::Unkown(_) => true,
            Error::ValidationErrors(v) => errors_reportable_exec(v),
        }
    }

    /// Writes the error as text.
    pub fn to_string(&self) -> (r: String)
        requires
            self.displayable(),
        ensures
            r@ == self.text(),
    {
        match self {
            Error::ValidationErrors(errors) => {
                match errors_to_message(String::new(), errors) {
                    Some(m) => m,
                    None => String::new(),
                }
            },
            Error::Unkown(e) => e.clone(),
        }
    }
}

impl From<ValidationErrors> for Error {
    fn from(e: ValidationErrors) -> (r: Error) {
        Error::ValidationErrors(e)
    }
}

impl vstd::std_specs::convert::FromSpecImpl<ValidationErrors> for Error {
    open spec fn obeys_from_spec() -> bool {
        true
    }

    open spec fn from_spec(e: ValidationErrors) -> Error {
        Error::ValidationErrors(e)
    }
}

impl From<String> for Error {
    fn from(e: String) -> (r: Error) {
        Error::Unkown(e)
    }
}

impl vstd::std_specs::convert::FromSpecImpl<String> for Error {
    open spec fn obeys_from_spec() -> bool {
        true
    }

    open spec fn from_spec(e: String) -> Error {
        Error::Unkown(e)
    }
}

impl<'a> From<&'a str> for Error {
    /// An unknown failure whose message is `e`. Strings are known only by
    /// their characters, so the conversion is stated on this function's own
    /// contract, not as one spec value.
    fn from(e: &'a str) -> (r: Error)
        ensures
            r matches Error::Unkown(m) && m@ == e@,
    {
        Error::Unkown(String::from_str(e))
    }
}

impl<'a> vstd::std_specs::convert::FromSpecImpl<&'a str> for Error {
    open spec fn obeys_from_spec() -> bool {
        false
    }

    open spec fn from_spec(e: &'a str) -> Error {
        Error::Unkown(choose|m: String| m@ == e@)
    }
}

/// An error made from a message writes back that message, whether the
/// message came as a `String` or as a `&str`.
/// Both conversions give an unknown failure that holds the message: the one
/// from `String` by its spec, `Error::Unkown(s)`, the one from `&str` by its
/// contract.
pub proof fn lemma_message_round_trip(s: Seq<char>, r: Error)
    requires
        r matches Error::Unkown(m) && m@ == s,
    ensures
        r.displayable(),
        r.text() == s,
{
}

/// A number bound is written as that number in the usual decimal way.
pub proof fn lemma_uint_param_text(u: u64)
    ensures
        writes_number(param_text(ParamValueView::UInt(u)), u as int),
{
    lemma_decimal_writes_number(u as nat);
}

/// A failed length rule with only a lower bound `u` reads "must be at least
/// <u> characters long", the bound written as its number.
pub proof fn lemma_min_length_message(e: FieldError, u: u64)
    requires
        e.code@ == "length"@,
        e.message is None,
        lookup(e.params@, "min"@) == Some(ParamValueView::UInt(u)),
        lookup(e.params@, "max"@) is None,
    ensures
        exists|d: Seq<char>|
            writes_number(d, u as int) && e.message_text() == "must be at least "@ + d
                + " characters long"@,
{
    lemma_uint_param_text(u);
    assert(writes_number(param_text(ParamValueView::UInt(u)), u as int));
}

/// A failed length rule with only an upper bound `u` reads "must be less than
/// or equal to <u> characters long", the bound written as its number.
pub proof fn lemma_max_length_message(e: FieldError, u: u64)
    requires
        e.code@ == "length"@,
        e.message is None,
        lookup(e.params@, "min"@) is None,
        lookup(e.params@, "max"@) == Some(ParamValueView::UInt(u)),
    ensures
        exists|d: Seq<char>|
            writes_number(d, u as int) && e.message_text() == "must be less than or equal to "@ + d
                + " characters long"@,
{
    lemma_uint_param_text(u);
    assert(writes_number(param_text(ParamValueView::UInt(u)), u as int));
}

/// Where the first entry of a report is a list, the report's message is the
/// message of its item with the smallest index, whose names are written after
/// the path, the list's name and that index in brackets, written as its
/// number.
pub proof fn lemma_list_message(path: Seq<char>, errors: ValidationErrors)
    requires
        errors.entries@.len() > 0,
        errors.entries@[0].1 matches ErrorsKind::List(items) && items@.len() > 0,
    ensures
        ({
            let items = errors.entries@[0].1->List_0@;
            let p = smallest_pos(items);
            &&& 0 <= p < items.len()
            &&& forall|j: int| 0 <= j < items.len() ==> items[p].0 <= #[trigger] items[j].0
            &&& exists|d: Seq<char>|
                writes_number(d, items[p].0 as int) && errors_message(path, errors) == errors_message(
                    path + "."@ + errors.entries@[0].0@ + "["@ + d + "]"@,
                    items[p].1,
                )
        }),
{
    let items = errors.entries@[0].1->List_0@;
    lemma_smallest_pos(items);
    let p = smallest_pos(items);
    lemma_decimal_writes_number(items[p].0 as nat);
    assert(writes_number(decimal(items[p].0 as nat), items[p].0 as int));
}

} // verus!
