//! The command that creates a group, its validation and the event it records.

use vstd::prelude::*;
use crate::bus::Message;
use crate::error::{
    distinct_names, errors_message, errors_reportable, increasing_indices, lookup, param_text, Error, ErrorsKind, FieldError, ParamValue,
    ParamValueView, ValidationErrors,
};
use crate::event::{is_stream_suffix, Domain, ID_SIZE};
use crate::group::event::{Created, Event};

verus! {

/// The fewest characters a group name may have.
pub const MIN_NAME_LENGTH: u64 = 3;

/// Whether a text of `len` characters passes a length rule with these bounds:
/// an `equal` bound decides alone; otherwise each bound that is set must hold.
pub open spec fn length_accepted(len: nat, min: Option<u64>, max: Option<u64>, equal: Option<u64>) -> bool {
    match equal {
        Some(e) => len == e,
        None => (match min {
            Some(m) => len >= m,
            None => true,
        }) && (match max {
            Some(m) => len <= m,
            None => true,
        }),
    }
}

/// `validator::ValidateLength::validate_length` on a text, whose length is
/// its number of characters.
#[verifier::external_body]
fn length_within(s: &str, min: Option<u64>, max: Option<u64>, equal: Option<u64>) -> (r: bool)
    ensures
        r == length_accepted(s@.len(), min, max, equal),
{
    validator::ValidateLength::<u64>::validate_length(s, min, max, equal)
}

/// The request to create a group with the given name.
#[derive(Debug, Clone, PartialEq, Eq)]
pub struct CreateGroupCommand {
    pub name: String,
}

impl Default for CreateGroupCommand {
    fn default() -> (r: CreateGroupCommand)
        ensures
            r.name@ == Seq::<char>::empty(),
    {
        CreateGroupCommand { name: String::new() }
    }
}

/// Whether `report` is the report of a group name `name` that is too short:
/// one entry, `name`, holding one failed `length` rule without a message,
/// whose parameters are `min`, the fewest characters allowed, and `value`,
/// the name itself.
pub open spec fn is_short_name_report(report: ValidationErrors, name: Seq<char>) -> bool {
    &&& report.entries@.len() == 1
    &&& report.entries@[0].0@ == "name"@
    &&& report.entries@[0].1 matches ErrorsKind::Field(fields)
        && fields@.len() == 1
        && fields@[0].code@ == "length"@
        && fields@[0].message is None
        && fields@[0].params@.len() == 2
        && fields@[0].params@[0].0@ == "min"@
        && fields@[0].params@[0].1@ == ParamValueView::UInt(MIN_NAME_LENGTH)
        && fields@[0].params@[1].0@ == "value"@
        && fields@[0].params@[1].1@ == ParamValueView::Text(name)
}

/// The message for a group name that is too short.
pub open spec fn short_name_message() -> Seq<char> {
    "The field .name must be at least 3 characters long"@
}

/// The report of a group name that is too short reads "The field .name must
/// be at least 3 characters long", whatever the name.
pub proof fn lemma_short_name_message(report: ValidationErrors, name: Seq<char>)
    requires
        is_short_name_report(report, name),
    ensures
        errors_reportable(report),
        errors_message(Seq::empty(), report) == Some(short_name_message()),
{
    reveal_strlit("name");
    reveal_strlit("min");
    reveal_strlit("max");
    reveal_strlit("equal");
    reveal_strlit("value");
    reveal_strlit("length");
    reveal_strlit(".");
    reveal_strlit(" ");
    reveal_strlit("The field ");
    reveal_strlit("The field .name must be at least ");
    reveal_strlit("must be at least ");
    let fields = report.entries@[0].1->Field_0;
    let e = fields@[0];
    let params = e.params@;
    assert(params.skip(1).skip(1) =~= Seq::<(String, ParamValue)>::empty());
    assert(params.skip(1)[0] == params[1]);
    assert("min"@[1] != "max"@[1]);
    assert("min"@ != "max"@);
    assert("value"@.len() != "max"@.len());
    assert("value"@ != "max"@);
    assert("value"@[0] != "equal"@[0]);
    assert("min"@ != "equal"@);
    assert("value"@ != "equal"@);
    assert(lookup(params, "min"@) == Some(ParamValueView::UInt(MIN_NAME_LENGTH)));
    assert(lookup(params.skip(1).skip(1), "max"@) is None);
    assert(lookup(params.skip(1), "max"@) is None);
    assert(lookup(params, "max"@) is None);
    assert(lookup(params.skip(1).skip(1), "equal"@) is None);
    assert(lookup(params.skip(1), "equal"@) is None);
    assert(lookup(params, "equal"@) is None);
    assert(e.has_message());
    reveal_strlit("3");
    reveal_strlit(" characters long");
    reveal_strlit("The field .name must be at least 3 characters long");
    let t = param_text(ParamValueView::UInt(MIN_NAME_LENGTH));
    assert(t =~= seq!['3']);
    assert("The field "@ + (Seq::<char>::empty() + "."@ + "name"@) + " "@ + ("must be at least "@ + t
        + " characters long"@) =~= short_name_message());
}

/// The report of a group name that is too short is a well-formed report.
proof fn lemma_short_name_report_well_formed(report: ValidationErrors, name: Seq<char>)
    requires
        is_short_name_report(report, name),
    ensures
        report.well_formed(),
{
    reveal_strlit("min");
    reveal_strlit("value");
    let fields = report.entries@[0].1->Field_0;
    assert("min"@.len() != "value"@.len());
    assert(distinct_names(fields@[0].params@));
    assert forall|i: int|
        #![trigger report.entries@[i]]
        0 <= i < report.entries@.len() implies match report.entries@[i].1 {
            ErrorsKind::Struct(inner) => inner.well_formed(),
            ErrorsKind::List(items) => increasing_indices(items@) && forall|j: int|
                #![trigger items@[j]]
                0 <= j < items@.len() ==> items@[j].1.well_formed(),
            ErrorsKind::Field(fields) => forall|j: int|
                #![trigger fields@[j]]
                0 <= j < fields@.len() ==> distinct_names(fields@[j].params@),
        } by {
        assert(i == 0);
    }
}

impl CreateGroupCommand {
    /// Checks the command: the name must have at least three characters.
    pub fn validate(&self) -> (r: Result<(), ValidationErrors>)
        ensures
            match r {
                Ok(()) => self.name@.len() >= MIN_NAME_LENGTH,
                Err(report) => self.name@.len() < MIN_NAME_LENGTH && is_short_name_report(
                    report,
                    self.name@,
                ) && report.well_formed(),
            },
    {
        if length_within(self.name.as_str(), Some(MIN_NAME_LENGTH), None, None) {
            return Ok(());
        }
        let mut params: Vec<(String, ParamValue)> = Vec::new();
        params.push((String::from_str("min"), ParamValue::UInt(MIN_NAME_LENGTH)));
        params.push((String::from_str("value"), ParamValue::Text(self.name.clone())));
        let mut fields: Vec<FieldError> = Vec::new();
        fields.push(FieldError { code: String::from_str("length"), message: None, params });
        let mut entries: Vec<(String, ErrorsKind)> = Vec::new();
        entries.push((String::from_str("name"), ErrorsKind::Field(fields)));
        let report = ValidationErrors { entries };
        proof {
            lemma_short_name_report_well_formed(report, self.name@);
        }
        Err(report)
    }
}

/// An event to append to the event store: the stream that receives it, its
/// type name and its data.
#[derive(Debug, Clone, PartialEq, Eq)]
pub struct NewEvent {
    pub stream_id: String,
    pub event_type: String,
    pub data: Created,
}

impl Message<CreateGroupCommand> {
    /// What the bus does with a request to create a group: it checks the
    /// command, and records a `created` event carrying the user and the name
    /// in a new stream of the group domain.
    pub fn into_new_event(self) -> (r: Result<NewEvent, Error>)
        ensures
            match r {
                Ok(e) => {
                    &&& self.1.name@.len() >= MIN_NAME_LENGTH
                    &&& e.event_type@ == Event::Created.name()
                    &&& e.data.user_id@ == self.0@
                    &&& e.data.name@ == self.1.name@
                    &&& e.stream_id@.len() == Domain::Group.stream_prefix().len() + ID_SIZE
                    &&& e.stream_id@.subrange(0, Domain::Group.stream_prefix().len() as int)
                        == Domain::Group.stream_prefix()
                    &&& is_stream_suffix(e.stream_id@.skip(Domain::Group.stream_prefix().len() as int))
                },
                Err(Error::ValidationErrors(report)) => self.1.name@.len() < MIN_NAME_LENGTH
                    && is_short_name_report(report, self.1.name@),
                Err(Error::Unkown(_)) => false,
            },
    {
        match self.1.validate() {
            Err(report) => Err(Error::ValidationErrors(report)),
            Ok(()) => {
                let stream_id = Domain::Group.to_stream_id();
                let event_type = String::from_str(Event::Created.as_str());
                Ok(NewEvent { stream_id, event_type, data: Created { user_id: self.0, name: self.1.name } })
            },
        }
    }
}

} // verus!
