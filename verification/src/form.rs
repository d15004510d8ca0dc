//! URL-encoded forms: the pairs that a payload decodes to, and what those
//! pairs amount to as a subscription form.

use crate::error::AppError;
use crate::routes::subscriptions::SubscribeFormView;
use vstd::prelude::*;

verus! {

/// A decoded form: its name/value pairs, in the order of the payload.
pub type Pairs = Seq<(Seq<char>, Seq<char>)>;

/// The fields of the subscription form.
#[derive(Clone, Copy, Debug, PartialEq, Eq, Structural)]
pub enum Field {
    Name,
    Email,
}

impl Field {
    /// The key under which the field is submitted.
    pub open spec fn key(self) -> Seq<char> {
        match self {
            Field::Name => "name"@,
            Field::Email => "email"@,
        }
    }
}

/// Why a submission is turned away.
#[derive(Clone, Copy, Debug, PartialEq, Eq, Structural)]
pub enum FormRejection {
    /// The content type is absent or is not that of a URL-encoded form.
    InvalidFormContentType,
    /// The field is given more than once.
    DuplicateField(Field),
    /// The field is not given.
    MissingField(Field),
}

impl FormRejection {
    /// The message that tells the caller what is wrong.
    pub open spec fn message(self) -> Seq<char> {
        match self {
            FormRejection::InvalidFormContentType =>
                "Form requests must have `Content-Type: application/x-www-form-urlencoded`"@,
            FormRejection::DuplicateField(Field::Name) =>
                "Failed to deserialize form body: duplicate field `name`"@,
            FormRejection::DuplicateField(Field::Email) =>
                "Failed to deserialize form body: duplicate field `email`"@,
            FormRejection::MissingField(Field::Name) =>
                "Failed to deserialize form body: missing field `name`"@,
            FormRejection::MissingField(Field::Email) =>
                "Failed to deserialize form body: missing field `email`"@,
        }
    }

    /// The message, as text to send.
    pub fn body_text(&self) -> (text: String)
        ensures
            text@ == self.message(),
    {
        match self {
            FormRejection::InvalidFormContentType =>
                "Form requests must have `Content-Type: application/x-www-form-urlencoded`".to_owned(),
            FormRejection::DuplicateField(Field::Name) =>
                "Failed to deserialize form body: duplicate field `name`".to_owned(),
            FormRejection::DuplicateField(Field::Email) =>
                "Failed to deserialize form body: duplicate field `email`".to_owned(),
            FormRejection::MissingField(Field::Name) =>
                "Failed to deserialize form body: missing field `name`".to_owned(),
            FormRejection::MissingField(Field::Email) =>
                "Failed to deserialize form body: missing field `email`".to_owned(),
        }
    }

    /// The failure that this rejection is reported as: a validation failure
    /// that carries the message. Nothing else tells one rejection from
    /// another once it is a failure.
    pub fn into_error(self) -> (error: AppError)
        ensures
            error matches AppError::ValidationError(message) && message@ == self.message(),
    {
        AppError::ValidationError(self.body_text())
    }
}

/// The pairs that `form_urlencoded::parse` yields for a payload, each name
/// and each value decoded.
pub uninterp spec fn form_pairs(body: Seq<u8>) -> Pairs;

/// Decodes a URL-encoded payload with `form_urlencoded::parse`.
///
/// Trusted: the pairs are a function of the payload alone. The parser takes
/// any bytes: what it cannot decode it keeps or replaces, and it never fails.
#[verifier::external_body]
pub(crate) fn decode_pairs(body: &[u8]) -> (pairs: Vec<(String, String)>)
    ensures
        pairs.deep_view() == form_pairs(body@),
{
    form_urlencoded::parse(body).into_owned().collect()
}

/// The content type of a URL-encoded form.
pub open spec fn form_content_type() -> Seq<char> {
    "application/x-www-form-urlencoded"@
}

/// Whether a declared content type is that of a URL-encoded form: it is
/// there, and it begins with the form type. Parameters may follow.
pub open spec fn declares_form(content_type: Option<Seq<char>>) -> bool {
    content_type matches Some(value) && form_content_type().is_prefix_of(value)
}

/// The index of the first pair at or after `from` that is named `key`, or
/// `pairs.len()` where there is none.
pub open spec fn next_index(pairs: Pairs, key: Seq<char>, from: int) -> int
    decreases pairs.len() - from,
{
    if from < 0 || from >= pairs.len() {
        pairs.len() as int
    } else if pairs[from].0 == key {
        from
    } else {
        next_index(pairs, key, from + 1)
    }
}

/// Where `key` is first given, or `pairs.len()` where it is not given.
pub open spec fn first_index(pairs: Pairs, key: Seq<char>) -> int {
    next_index(pairs, key, 0)
}

/// Where `key` is given for the second time, or `pairs.len()` where it is
/// given at most once.
pub open spec fn repeat_index(pairs: Pairs, key: Seq<char>) -> int {
    next_index(pairs, key, first_index(pairs, key) + 1)
}

/// What the pairs of a form amount to. Keys other than those of the two
/// fields are passed over. The first key to be given a second time is
/// rejected as a duplicate; with no duplicate, `name` and then `email` are
/// asked for; each field then takes the value given under its key, which may
/// be empty.
pub open spec fn collect(pairs: Pairs) -> Result<SubscribeFormView, FormRejection> {
    let name_at = first_index(pairs, Field::Name.key());
    let email_at = first_index(pairs, Field::Email.key());
    let name_again = repeat_index(pairs, Field::Name.key());
    let email_again = repeat_index(pairs, Field::Email.key());
    if name_again < email_again {
        Err(FormRejection::DuplicateField(Field::Name))
    } else if email_again < name_again {
        Err(FormRejection::DuplicateField(Field::Email))
    } else if name_at >= pairs.len() {
        Err(FormRejection::MissingField(Field::Name))
    } else if email_at >= pairs.len() {
        Err(FormRejection::MissingField(Field::Email))
    } else {
        Ok(SubscribeFormView { name: pairs[name_at].1, email: pairs[email_at].1 })
    }
}

/// What a submission amounts to: the content type is looked at first, the
/// payload only where the content type is right.
pub open spec fn validate(content_type: Option<Seq<char>>, pairs: Pairs) -> Result<
    SubscribeFormView,
    FormRejection,
> {
    if declares_form(content_type) {
        collect(pairs)
    } else {
        Err(FormRejection::InvalidFormContentType)
    }
}

/// Whether `key` is given at `at` and nowhere else.
pub open spec fn given_once_at(pairs: Pairs, key: Seq<char>, at: int) -> bool {
    &&& 0 <= at < pairs.len()
    &&& forall|i: int| 0 <= i < pairs.len() ==> ((#[trigger] pairs[i]).0 == key <==> i == at)
}

/// Whether `key` is given nowhere.
pub open spec fn not_given(pairs: Pairs, key: Seq<char>) -> bool {
    forall|i: int| 0 <= i < pairs.len() ==> (#[trigger] pairs[i]).0 != key
}

/// Whether `text` begins with `prefix`.
fn starts_with(text: &str, prefix: &str) -> (yes: bool)
    ensures
        yes == prefix@.is_prefix_of(text@),
{
    let wanted = prefix.unicode_len();
    if text.unicode_len() < wanted {
        return false;
    }
    let mut i: usize = 0;
    while i < wanted
        invariant
            i <= wanted,
            wanted == prefix@.len(),
            wanted <= text@.len(),
            forall|j: int| 0 <= j < i ==> text@[j] == prefix@[j],
        decreases wanted - i,
    {
        if text.get_char(i) != prefix.get_char(i) {
            assert(text@.subrange(0, wanted as int)[i as int] != prefix@[i as int]);
            return false;
        }
        i += 1;
    }
    assert(prefix@ =~= text@.subrange(0, wanted as int));
    true
}

/// Whether a declared content type is that of a URL-encoded form.
pub fn is_form_content_type(content_type: Option<&str>) -> (yes: bool)
    ensures
        yes == declares_form(content_type.deep_view()),
{
    match content_type {
        Some(value) => starts_with(value, "application/x-www-form-urlencoded"),
        None => false,
    }
}

/// `next_index` is the least index from `from` on that holds `key`.
pub proof fn lemma_next_index(pairs: Pairs, key: Seq<char>, from: int)
    requires
        0 <= from <= pairs.len(),
    ensures
        from <= next_index(pairs, key, from) <= pairs.len(),
        next_index(pairs, key, from) < pairs.len() ==> pairs[next_index(pairs, key, from)].0 == key,
        forall|i: int| from <= i < next_index(pairs, key, from) ==> (#[trigger] pairs[i]).0 != key,
    decreases pairs.len() - from,
{
    if from < pairs.len() && pairs[from].0 != key {
        lemma_next_index(pairs, key, from + 1);
    }
}

/// The two keys are different texts.
pub proof fn lemma_keys_differ()
    ensures
        Field::Name.key() != Field::Email.key(),
{
    reveal_strlit("name");
    reveal_strlit("email");
    assert(Field::Name.key().len() != Field::Email.key().len());
}

/// A key given once is first given there, and is not given again.
proof fn lemma_given_once(pairs: Pairs, key: Seq<char>, at: int)
    requires
        given_once_at(pairs, key, at),
    ensures
        first_index(pairs, key) == at,
        repeat_index(pairs, key) == pairs.len(),
{
    lemma_next_index(pairs, key, 0);
    assert(pairs[at].0 == key);
    lemma_next_index(pairs, key, at + 1);
}

/// A key that is not given at `at`, and not twice before it, is not given
/// for the second time until after `at`.
pub(crate) proof fn lemma_repeat_is_late(pairs: Pairs, key: Seq<char>, at: int)
    requires
        0 <= at < pairs.len(),
        pairs[at].0 != key,
        first_index(pairs, key) < at ==> repeat_index(pairs, key) == next_index(pairs, key, at),
        first_index(pairs, key) >= at ==> first_index(pairs, key) == next_index(pairs, key, at),
    ensures
        at < repeat_index(pairs, key),
{
    lemma_next_index(pairs, key, at + 1);
    let first = first_index(pairs, key);
    if at <= first < pairs.len() {
        lemma_next_index(pairs, key, first + 1);
    }
}

/// A form that gives `name` once and `email` once is accepted, and each
/// field takes the value given under its key, empty or not.
pub proof fn lemma_complete_form_is_accepted(pairs: Pairs, name_at: int, email_at: int)
    requires
        given_once_at(pairs, Field::Name.key(), name_at),
        given_once_at(pairs, Field::Email.key(), email_at),
    ensures
        collect(pairs) == Ok::<SubscribeFormView, FormRejection>(
            SubscribeFormView { name: pairs[name_at].1, email: pairs[email_at].1 },
        ),
{
    lemma_given_once(pairs, Field::Name.key(), name_at);
    lemma_given_once(pairs, Field::Email.key(), email_at);
}

/// A form is accepted only if it gives `name` once and `email` once.
pub proof fn lemma_accepted_form_is_complete(pairs: Pairs)
    requires
        collect(pairs) is Ok,
    ensures
        given_once_at(pairs, Field::Name.key(), first_index(pairs, Field::Name.key())),
        given_once_at(pairs, Field::Email.key(), first_index(pairs, Field::Email.key())),
{
    let name_at = first_index(pairs, Field::Name.key());
    let email_at = first_index(pairs, Field::Email.key());
    lemma_keys_differ();
    lemma_next_index(pairs, Field::Name.key(), 0);
    lemma_next_index(pairs, Field::Email.key(), 0);
    lemma_next_index(pairs, Field::Name.key(), name_at + 1);
    lemma_next_index(pairs, Field::Email.key(), email_at + 1);
}

/// A form that lacks `name`, `email` or both is rejected.
pub proof fn lemma_incomplete_form_is_rejected(pairs: Pairs)
    requires
        not_given(pairs, Field::Name.key()) || not_given(pairs, Field::Email.key()),
    ensures
        collect(pairs) is Err,
{
    let name_at = first_index(pairs, Field::Name.key());
    let email_at = first_index(pairs, Field::Email.key());
    lemma_next_index(pairs, Field::Name.key(), 0);
    lemma_next_index(pairs, Field::Email.key(), 0);
    if name_at < pairs.len() {
        lemma_next_index(pairs, Field::Name.key(), name_at + 1);
    }
    if email_at < pairs.len() {
        lemma_next_index(pairs, Field::Email.key(), email_at + 1);
    }
}

} // verus!
