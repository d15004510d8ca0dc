//! The subscription route: the form it takes, and the steps by which a
//! submission becomes a row in the store or a failure.

use crate::error::{answer, internal_error_message, AppError};
use crate::form::{
    collect, decode_pairs, declares_form, first_index, form_pairs, given_once_at,
    is_form_content_type, lemma_complete_form_is_accepted, lemma_incomplete_form_is_rejected,
    lemma_keys_differ, lemma_next_index, lemma_repeat_is_late, next_index, not_given,
    repeat_index, validate, Field, FormRejection,
};
use crate::response::{failure, success, STATUS_BAD_REQUEST, STATUS_INTERNAL_SERVER_ERROR};
use crate::store::{
    holds_id, ids_are_unique, inserted_all, is_random_id, lemma_distinct_rows_are_all_stored,
    Subscription, SubscriptionView, Table,
};
use vstd::prelude::*;

verus! {

/// What a subscriber submits.
#[derive(Debug, PartialEq, Eq)]
pub struct SubscribeForm {
    pub name: String,
    pub email: String,
}

/// A form as contracts see it.
pub struct SubscribeFormView {
    pub name: Seq<char>,
    pub email: Seq<char>,
}

impl View for SubscribeForm {
    type V = SubscribeFormView;

    open spec fn view(&self) -> SubscribeFormView {
        SubscribeFormView { name: self.name@, email: self.email@ }
    }
}

impl SubscribeForm {
    /// Collects the two fields from the decoded pairs of a form.
    pub fn from_pairs(pairs: Vec<(String, String)>) -> (result: Result<SubscribeForm, FormRejection>)
        ensures
            match collect(pairs.deep_view()) {
                Ok(form) => result matches Ok(found) && found@ == form,
                Err(rejection) => result matches Err(given) && given == rejection,
            },
    {
        let ghost p = pairs.deep_view();
        let name_key = "name".to_owned();
        let email_key = "email".to_owned();
        let mut name: Option<String> = None;
        let mut email: Option<String> = None;
        let mut i: usize = 0;
        proof {
            lemma_keys_differ();
        }
        while i < pairs.len()
            invariant
                i <= pairs.len(),
                p == pairs.deep_view(),
                p.len() == pairs.len(),
                name_key@ == Field::Name.key(),
                email_key@ == Field::Email.key(),
                Field::Name.key() != Field::Email.key(),
                match name {
                    None => first_index(p, Field::Name.key()) == next_index(
                        p,
                        Field::Name.key(),
                        i as int,
                    ),
                    Some(value) => {
                        &&& first_index(p, Field::Name.key()) < i
                        &&& value@ == p[first_index(p, Field::Name.key())].1
                        &&& repeat_index(p, Field::Name.key()) == next_index(
                            p,
                            Field::Name.key(),
                            i as int,
                        )
                    },
                },
                match email {
                    None => first_index(p, Field::Email.key()) == next_index(
                        p,
                        Field::Email.key(),
                        i as int,
                    ),
                    Some(value) => {
                        &&& first_index(p, Field::Email.key()) < i
                        &&& value@ == p[first_index(p, Field::Email.key())].1
                        &&& repeat_index(p, Field::Email.key()) == next_index(
                            p,
                            Field::Email.key(),
                            i as int,
                        )
                    },
                },
            decreases pairs.len() - i,
        {
            assert(p[i as int] == (pairs@[i as int].0@, pairs@[i as int].1@));
            proof {
                lemma_next_index(p, Field::Name.key(), i + 1);
                lemma_next_index(p, Field::Email.key(), i + 1);
            }
            if pairs[i].0 == name_key {
                if name.is_some() {
                    proof {
                        lemma_repeat_is_late(p, Field::Email.key(), i as int);
                    }
                    return Err(FormRejection::DuplicateField(Field::Name));
                }
                name = Some(pairs[i].1.clone());
            } else if pairs[i].0 == email_key {
                if email.is_some() {
                    proof {
                        lemma_repeat_is_late(p, Field::Name.key(), i as int);
                    }
                    return Err(FormRejection::DuplicateField(Field::Email));
                }
                email = Some(pairs[i].1.clone());
            }
            i += 1;
        }
        match (name, email) {
            (None, _) => Err(FormRejection::MissingField(Field::Name)),
            (Some(_), None) => Err(FormRejection::MissingField(Field::Email)),
            (Some(name), Some(email)) => Ok(SubscribeForm { name, email }),
        }
    }

    /// Validates a submission: the declared content type first, then the
    /// payload.
    ///
    /// It is accepted exactly when the content type is that of a URL-encoded
    /// form and the decoded payload gives `name` once and `email` once.
    /// Every other submission is a validation failure whose message says
    /// what is wrong.
    pub fn parse(body: &[u8], content_type: Option<&str>) -> (result: Result<SubscribeForm, AppError>)
        ensures
            match validate(content_type.deep_view(), form_pairs(body@)) {
                Ok(form) => result matches Ok(found) && found@ == form,
                Err(rejection) => result matches Err(AppError::ValidationError(message))
                    && message@ == rejection.message(),
            },
    {
        if !is_form_content_type(content_type) {
            return Err(FormRejection::InvalidFormContentType.into_error());
        }
        match SubscribeForm::from_pairs(decode_pairs(body)) {
            Ok(form) => Ok(form),
            Err(rejection) => Err(rejection.into_error()),
        }
    }
}

/// A submission as it arrives.
#[derive(Debug, PartialEq, Eq)]
pub struct Submission {
    /// The payload, undecoded.
    pub body: Vec<u8>,
    /// The content type that the request declares, if it declares one.
    pub content_type: Option<String>,
}

/// Where the handling of one request stands, together with what has just
/// come in. Nothing is kept from one request to the next.
#[derive(Debug)]
pub enum Ingestion {
    /// The submission has arrived and nothing has been done with it.
    Receiving(Submission),
    /// The submission was valid, its row went to the store, and this is the
    /// store's verdict.
    Validated(Result<(), sqlx::Error>),
}

/// What is to happen next for a request.
#[derive(Debug)]
pub enum Action {
    /// Hand this row to the store in a single insert, then come back with
    /// the verdict as `Ingestion::Validated`.
    Insert(Subscription),
    /// The request is over, with this outcome.
    Finish(Result<(), AppError>),
}

impl Action {
    /// The rows that this action hands to the store.
    pub open spec fn rows(self) -> Seq<SubscriptionView> {
        match self {
            Action::Insert(row) => seq![row@],
            Action::Finish(_) => Seq::empty(),
        }
    }
}

/// Whether `action` is what `stage` calls for.
///
/// A submission that does not validate ends the request with the validation
/// failure, and no row goes to the store. One that validates is handed to
/// the store as one row that carries its name and email under a random id.
/// The store's verdict ends the request: with success where the row was
/// taken, with the store's failure where it was not. No step is tried twice.
pub open spec fn calls_for(stage: Ingestion, action: Action) -> bool {
    match stage {
        Ingestion::Receiving(submission) => match validate(
            submission.content_type.deep_view(),
            form_pairs(submission.body@),
        ) {
            Ok(form) => {
                &&& action matches Action::Insert(row)
                &&& row@.name == form.name
                &&& row@.email == form.email
                &&& is_random_id(row@.id)
            },
            Err(rejection) => {
                &&& action matches Action::Finish(Err(AppError::ValidationError(message)))
                &&& message@ == rejection.message()
            },
        },
        Ingestion::Validated(Ok(_)) => action matches Action::Finish(Ok(_)),
        Ingestion::Validated(Err(diagnostic)) => {
            &&& action matches Action::Finish(Err(AppError::DatabaseError(kept)))
            &&& kept == diagnostic
        },
    }
}

/// Decides the next step for a request.
///
/// The caller carries the step out: it performs the insert that is asked
/// for and comes back with the store's verdict, or it sends the answer to
/// the outcome and is done.
pub fn subscribe(stage: Ingestion) -> (action: Action)
    ensures
        calls_for(stage, action),
{
    match stage {
        Ingestion::Receiving(submission) => {
            let content_type: Option<&str> = match &submission.content_type {
                Some(value) => Some(value.as_str()),
                None => None,
            };
            match SubscribeForm::parse(submission.body.as_slice(), content_type) {
                Ok(form) => Action::Insert(Subscription::create(form)),
                Err(error) => Action::Finish(Err(error)),
            }
        },
        Ingestion::Validated(Ok(_)) => Action::Finish(Ok(())),
        Ingestion::Validated(Err(diagnostic)) => Action::Finish(Err(AppError::from(diagnostic))),
    }
}

/// Whether a submission declares a form and gives `name` once and `email`
/// once.
pub open spec fn is_complete(submission: Submission) -> bool {
    &&& declares_form(submission.content_type.deep_view())
    &&& exists|at: int| given_once_at(form_pairs(submission.body@), Field::Name.key(), at)
    &&& exists|at: int| given_once_at(form_pairs(submission.body@), Field::Email.key(), at)
}

/// Whether `order` lists the numbers below `count`, each of them once.
pub open spec fn is_order(order: Seq<int>, count: nat) -> bool {
    &&& order.len() == count
    &&& order.no_duplicates()
    &&& forall|k: int| 0 <= k < count ==> 0 <= #[trigger] order[k] < count
}

/// The row that an action hands to the store.
pub open spec fn row_of(action: Action) -> SubscriptionView {
    action->Insert_0@
}

/// The rows that `actions` hand to the store when they reach it in `order`.
pub open spec fn rows_in_order(actions: Seq<Action>, order: Seq<int>) -> Seq<SubscriptionView> {
    Seq::new(order.len(), |k: int| row_of(actions[order[k]]))
}

/// A submission that declares a form and gives `name` once and `email` once
/// is handed to the store as one row with that name and that email under a
/// random id. A store that holds no row of that id then holds exactly one
/// row more, this one. Once the store has taken the row, the request ends
/// with success and an empty body, and nothing more goes to the store.
pub proof fn lemma_complete_submission_is_persisted(
    submission: Submission,
    name_at: int,
    email_at: int,
    table: Table,
    first: Action,
    second: Action,
)
    requires
        declares_form(submission.content_type.deep_view()),
        given_once_at(form_pairs(submission.body@), Field::Name.key(), name_at),
        given_once_at(form_pairs(submission.body@), Field::Email.key(), email_at),
        calls_for(Ingestion::Receiving(submission), first),
        calls_for(Ingestion::Validated(Ok(())), second),
        first matches Action::Insert(row) ==> !holds_id(table, row@.id),
    ensures
        first matches Action::Insert(row) && {
            &&& row@.name == form_pairs(submission.body@)[name_at].1
            &&& row@.email == form_pairs(submission.body@)[email_at].1
            &&& is_random_id(row@.id)
            &&& inserted_all(table, first.rows()) == table.push(row@)
        },
        second matches Action::Finish(outcome) && answer(outcome) == success(),
        inserted_all(table, second.rows()) == table,
{
    lemma_complete_form_is_accepted(form_pairs(submission.body@), name_at, email_at);
    reveal_with_fuel(inserted_all, 2);
    assert(first.rows().drop_last() =~= Seq::<SubscriptionView>::empty());
}

/// A submission that lacks `name`, `email` or both ends the request with a
/// validation failure, which is answered with `400`; no row goes to the
/// store, whose table stays as it was.
pub proof fn lemma_incomplete_submission_is_refused(
    submission: Submission,
    table: Table,
    action: Action,
)
    requires
        not_given(form_pairs(submission.body@), Field::Name.key()) || not_given(
            form_pairs(submission.body@),
            Field::Email.key(),
        ),
        calls_for(Ingestion::Receiving(submission), action),
    ensures
        action matches Action::Finish(Err(error)) && {
            &&& error is ValidationError
            &&& answer(Err(error)).status == STATUS_BAD_REQUEST
        },
        inserted_all(table, action.rows()) == table,
{
    lemma_incomplete_form_is_rejected(form_pairs(submission.body@));
}

/// A store failure ends the request: it is answered with `500` and the one
/// generic message, whatever the diagnostic holds, and the insert is not
/// tried again.
pub proof fn lemma_store_failure_is_final(diagnostic: sqlx::Error, table: Table, action: Action)
    requires
        calls_for(Ingestion::Validated(Err(diagnostic)), action),
    ensures
        action matches Action::Finish(outcome) && answer(outcome) == failure(
            STATUS_INTERNAL_SERVER_ERROR,
            internal_error_message(),
        ),
        inserted_all(table, action.rows()) == table,
{
}

/// Complete submissions, however many, each become a row, in whatever order
/// they reach the store: where the ids drawn for them differ from one
/// another and from those in the table, the table grows by exactly one row
/// for each submission, and no two of its rows share an id.
pub proof fn lemma_distinct_submissions_are_all_persisted(
    submissions: Seq<Submission>,
    actions: Seq<Action>,
    order: Seq<int>,
    table: Table,
)
    requires
        submissions.len() == actions.len(),
        forall|i: int| 0 <= i < submissions.len() ==> is_complete(#[trigger] submissions[i]),
        forall|i: int|
            #![trigger actions[i]]
            0 <= i < submissions.len() ==> calls_for(
                Ingestion::Receiving(submissions[i]),
                actions[i],
            ),
        is_order(order, actions.len()),
        ids_are_unique(table),
        forall|i: int|
            0 <= i < actions.len() ==> !holds_id(table, row_of(#[trigger] actions[i]).id),
        forall|i: int, j: int|
            0 <= i < j < actions.len() ==> row_of(#[trigger] actions[i]).id != row_of(
                #[trigger] actions[j],
            ).id,
    ensures
        forall|i: int| 0 <= i < actions.len() ==> #[trigger] actions[i] is Insert,
        inserted_all(table, rows_in_order(actions, order)) == table + rows_in_order(actions, order),
        inserted_all(table, rows_in_order(actions, order)).len() == table.len()
            + submissions.len(),
        ids_are_unique(inserted_all(table, rows_in_order(actions, order))),
{
    assert forall|i: int| 0 <= i < actions.len() implies #[trigger] actions[i] is Insert by {
        let pairs = form_pairs(submissions[i].body@);
        assert(is_complete(submissions[i]));
        let name_at = choose|at: int| given_once_at(pairs, Field::Name.key(), at);
        let email_at = choose|at: int| given_once_at(pairs, Field::Email.key(), at);
        lemma_complete_form_is_accepted(pairs, name_at, email_at);
    }
    let rows = rows_in_order(actions, order);
    let all = table + rows;
    assert forall|a: int, b: int| 0 <= a < b < all.len() implies (#[trigger] all[a]).id != (
    #[trigger] all[b]).id by {
        if b < table.len() {
            assert(all[a] == table[a] && all[b] == table[b]);
        } else {
            let j = order[b - table.len()];
            assert(all[b] == row_of(actions[j]));
            if a < table.len() {
                assert(all[a] == table[a]);
                assert(!holds_id(table, row_of(actions[j]).id));
            } else {
                let i = order[a - table.len()];
                assert(all[a] == row_of(actions[i]));
                assert(i != j);
            }
        }
    }
    lemma_distinct_rows_are_all_stored(table, rows);
}

} // verus!
