//! What holds of every request.

use vstd::prelude::*;
use crate::form::{first_rejection, grouped, occurrences_of, verdict, Occurrences};
use crate::json::{json_object, JsonMemberView};
use crate::media::MediaPatternView;
use crate::part::RawPartView;
use crate::pipeline::{
    declares_form_data, outcome, upload_rules, RawRequestView, AVATAR_LIMIT, DATA_LIMIT,
};
use crate::rejection::RejectionView;
use crate::schema::FieldRule;
use crate::user::{member_named, payload_text, user_of, NewUserView, Quoting, UserView};

verus! {

/// Enforcement stops at the first part that the schema turns down.
pub proof fn lemma_rejected_at(schema: Map<Seq<char>, FieldRule>, parts: Seq<RawPartView>, i: int)
    requires
        0 <= i < parts.len(),
        forall|j: int| 0 <= j < i ==> verdict(schema, #[trigger] parts[j]) is None,
        verdict(schema, parts[i]) is Some,
    ensures
        first_rejection(schema, parts) == verdict(schema, parts[i]),
    decreases i,
{
    if i > 0 {
        let rest = parts.drop_first();
        assert(verdict(schema, parts[0]) is None);
        assert forall|j: int| 0 <= j < i - 1 implies verdict(schema, #[trigger] rest[j]) is None by {
            assert(rest[j] == parts[j + 1]);
        }
        assert(rest[i - 1] == parts[i]);
        lemma_rejected_at(schema, rest, i - 1);
    }
}

/// Enforcement passes exactly the bodies of which every part passes.
pub proof fn lemma_all_pass(schema: Map<Seq<char>, FieldRule>, parts: Seq<RawPartView>)
    ensures
        first_rejection(schema, parts) is None <==> forall|j: int|
            0 <= j < parts.len() ==> verdict(schema, #[trigger] parts[j]) is None,
    decreases parts.len(),
{
    if parts.len() > 0 {
        let rest = parts.drop_first();
        lemma_all_pass(schema, rest);
        if first_rejection(schema, parts) is None {
            assert forall|j: int| 0 <= j < parts.len() implies verdict(
                schema,
                #[trigger] parts[j],
            ) is None by {
                if j > 0 {
                    assert(rest[j - 1] == parts[j]);
                }
            }
        }
        if forall|j: int| 0 <= j < parts.len() ==> verdict(schema, #[trigger] parts[j]) is None {
            assert(verdict(schema, parts[0]) is None);
            assert forall|j: int| 0 <= j < rest.len() implies verdict(schema, #[trigger] rest[j])
                is None by {
                assert(rest[j] == parts[j + 1]);
            }
        }
    }
}

/// A name that no part bears has no record.
pub proof fn lemma_absent(parts: Seq<RawPartView>, name: Seq<char>)
    requires
        forall|j: int| 0 <= j < parts.len() ==> (#[trigger] parts[j]).name != name,
    ensures
        !grouped(parts).contains_key(name),
    decreases parts.len(),
{
    reveal(Seq::filter);
    if parts.len() > 0 {
        lemma_absent(parts.drop_last(), name);
    }
}

/// A name that a part bears has a record.
pub proof fn lemma_present(parts: Seq<RawPartView>, name: Seq<char>, i: int)
    requires
        0 <= i < parts.len(),
        parts[i].name == name,
    ensures
        grouped(parts).contains_key(name),
    decreases parts.len(),
{
    reveal(Seq::filter);
    if i < parts.len() - 1 {
        lemma_present(parts.drop_last(), name, i);
    }
}

/// A name that one part bears, and no other, has that part as its record.
pub proof fn lemma_single(parts: Seq<RawPartView>, name: Seq<char>, i: int)
    requires
        0 <= i < parts.len(),
        parts[i].name == name,
        forall|j: int| 0 <= j < parts.len() && j != i ==> (#[trigger] parts[j]).name != name,
    ensures
        grouped(parts).contains_key(name),
        grouped(parts)[name] == Occurrences::Single(parts[i]),
    decreases parts.len(),
{
    reveal(Seq::filter);
    let front = parts.drop_last();
    if i < parts.len() - 1 {
        assert forall|j: int| 0 <= j < front.len() && j != i implies (#[trigger] front[j]).name
            != name by {
            assert(front[j] == parts[j]);
        }
        lemma_single(front, name, i);
        assert(occurrences_of(parts, name) == occurrences_of(front, name));
    } else {
        assert forall|j: int| 0 <= j < front.len() implies (#[trigger] front[j]).name != name by {
            assert(front[j] == parts[j]);
        }
        lemma_absent(front, name);
        assert(occurrences_of(front, name).len() == 0);
        assert(occurrences_of(parts, name) =~= seq![parts[i]]);
    }
}

/// A name that two parts bear has a `Multiple` record.
pub proof fn lemma_several(parts: Seq<RawPartView>, name: Seq<char>, i: int, j: int)
    requires
        0 <= i < j < parts.len(),
        parts[i].name == name,
        parts[j].name == name,
    ensures
        grouped(parts).contains_key(name),
        grouped(parts)[name] is Multiple,
    decreases parts.len(),
{
    reveal(Seq::filter);
    let front = parts.drop_last();
    if j < parts.len() - 1 {
        lemma_several(front, name, i, j);
        assert(occurrences_of(front, name).len() >= 2);
    } else {
        lemma_present(front, name, i);
        assert(occurrences_of(front, name).len() >= 1);
    }
    assert(occurrences_of(parts, name).len() >= 2);
}

/// A `Multiple` record of grouped parts holds two parts or more.
pub proof fn lemma_multiple_holds_two(parts: Seq<RawPartView>, name: Seq<char>)
    requires
        grouped(parts).contains_key(name),
    ensures
        grouped(parts)[name] matches Occurrences::Multiple(found) ==> found.len() >= 2,
{
}

/// The form of a body that passed enforcement holds declared names only,
/// and under each name parts that the schema takes.
pub proof fn lemma_enforced_parts_pass(
    schema: Map<Seq<char>, FieldRule>,
    parts: Seq<RawPartView>,
    name: Seq<char>,
)
    requires
        first_rejection(schema, parts) is None,
        grouped(parts).contains_key(name),
    ensures
        schema.contains_key(name),
        forall|k: int|
            0 <= k < occurrences_of(parts, name).len() ==> verdict(
                schema,
                #[trigger] occurrences_of(parts, name)[k],
            ) is None,
{
    let named = |p: RawPartView| p.name == name;
    let found = occurrences_of(parts, name);
    lemma_all_pass(schema, parts);
    assert forall|k: int| 0 <= k < found.len() implies verdict(schema, #[trigger] found[k])
        is None && found[k].name == name by {
        assert(found.contains(found[k]));
        parts.lemma_filter_contains_rev(named, found[k]);
        parts.lemma_filter_pred(named, k);
        let j = choose|j: int| 0 <= j < parts.len() && parts[j] == found[k];
        assert(verdict(schema, parts[j]) is None);
    }
    assert(verdict(schema, found[0]) is None);
}

/// A request without a part called `data`, of which every part passes
/// enforcement, is answered with `MissingField("data")`.
pub proof fn law_missing_text_field(
    schema: Map<Seq<char>, FieldRule>,
    request: RawRequestView,
    quoting: Quoting,
)
    requires
        declares_form_data(request.content_type),
        request.body is Ok,
        first_rejection(schema, request.body->Ok_0) is None,
        forall|j: int|
            0 <= j < request.body->Ok_0.len() ==> (#[trigger] request.body->Ok_0[j]).name != "data"@,
    ensures
        outcome(schema, request, quoting) == Err::<NewUserView, RejectionView>(
            RejectionView::MissingField("data"@),
        ),
{
    lemma_absent(request.body->Ok_0, "data"@);
}

/// A request with a part called `data` and none called `avatar`, of which
/// every part passes enforcement, is answered with `MissingField("avatar")`.
pub proof fn law_missing_binary_field(
    schema: Map<Seq<char>, FieldRule>,
    request: RawRequestView,
    quoting: Quoting,
    d: int,
)
    requires
        declares_form_data(request.content_type),
        request.body is Ok,
        first_rejection(schema, request.body->Ok_0) is None,
        0 <= d < request.body->Ok_0.len(),
        request.body->Ok_0[d].name == "data"@,
        forall|j: int|
            0 <= j < request.body->Ok_0.len() ==> (#[trigger] request.body->Ok_0[j]).name
                != "avatar"@,
    ensures
        outcome(schema, request, quoting) == Err::<NewUserView, RejectionView>(
            RejectionView::MissingField("avatar"@),
        ),
{
    lemma_present(request.body->Ok_0, "data"@, d);
    lemma_absent(request.body->Ok_0, "avatar"@);
}

/// A part called `avatar` that is larger than its field allows, after
/// parts that all pass enforcement, has the request answered with
/// `FieldTooLarge("avatar")`.
pub proof fn law_oversized_binary_field(
    schema: Map<Seq<char>, FieldRule>,
    request: RawRequestView,
    quoting: Quoting,
    i: int,
)
    requires
        declares_form_data(request.content_type),
        request.body is Ok,
        0 <= i < request.body->Ok_0.len(),
        forall|j: int| 0 <= j < i ==> verdict(schema, #[trigger] request.body->Ok_0[j]) is None,
        request.body->Ok_0[i].name == "avatar"@,
        schema.contains_key("avatar"@),
        request.body->Ok_0[i].bytes.len() > schema["avatar"@].max_size,
    ensures
        outcome(schema, request, quoting) == Err::<NewUserView, RejectionView>(
            RejectionView::FieldTooLarge("avatar"@),
        ),
{
    lemma_rejected_at(schema, request.body->Ok_0, i);
}

/// Two parts called `data`, in a request that has a part called `avatar`
/// and of which every part passes enforcement, have the request answered
/// with `UnexpectedMultipleOccurrence("data")`.
pub proof fn law_repeated_text_field(
    schema: Map<Seq<char>, FieldRule>,
    request: RawRequestView,
    quoting: Quoting,
    i: int,
    j: int,
    a: int,
)
    requires
        declares_form_data(request.content_type),
        request.body is Ok,
        first_rejection(schema, request.body->Ok_0) is None,
        0 <= i < j < request.body->Ok_0.len(),
        request.body->Ok_0[i].name == "data"@,
        request.body->Ok_0[j].name == "data"@,
        0 <= a < request.body->Ok_0.len(),
        request.body->Ok_0[a].name == "avatar"@,
    ensures
        outcome(schema, request, quoting) == Err::<NewUserView, RejectionView>(
            RejectionView::UnexpectedMultipleOccurrence("data"@),
        ),
{
    lemma_several(request.body->Ok_0, "data"@, i, j);
    lemma_present(request.body->Ok_0, "avatar"@, a);
}

/// A part whose name the schema does not declare, after parts that all
/// pass enforcement, has the request answered with `UnknownField` of that
/// name.
pub proof fn law_unknown_field(
    schema: Map<Seq<char>, FieldRule>,
    request: RawRequestView,
    quoting: Quoting,
    i: int,
)
    requires
        declares_form_data(request.content_type),
        request.body is Ok,
        0 <= i < request.body->Ok_0.len(),
        forall|j: int| 0 <= j < i ==> verdict(schema, #[trigger] request.body->Ok_0[j]) is None,
        !schema.contains_key(request.body->Ok_0[i].name),
    ensures
        outcome(schema, request, quoting) == Err::<NewUserView, RejectionView>(
            RejectionView::UnknownField(request.body->Ok_0[i].name),
        ),
{
    lemma_rejected_at(schema, request.body->Ok_0, i);
}

/// An upload of one image within the size limit and one JSON record with
/// the keys `name` and `age` succeeds, in either order of the two parts:
/// the value holds the image's bytes as they were sent, and the name and
/// the age that the parser read from the payload.
pub proof fn law_round_trip(
    request: RawRequestView,
    avatar: RawPartView,
    data: RawPartView,
    members: Seq<JsonMemberView>,
    name: Seq<char>,
    age: int,
    quoting: Quoting,
)
    requires
        declares_form_data(request.content_type),
        request.body == Ok::<Seq<RawPartView>, RejectionView>(seq![avatar, data]) || request.body
            == Ok::<Seq<RawPartView>, RejectionView>(seq![data, avatar]),
        avatar.name == "avatar"@,
        avatar.bytes.len() <= AVATAR_LIMIT,
        MediaPatternView::AnySubtype("image"@).accepts(avatar.content_type),
        data.name == "data"@,
        data.bytes.len() <= DATA_LIMIT,
        json_object(payload_text(data.bytes, quoting)) == Ok::<Seq<JsonMemberView>, Seq<char>>(
            members,
        ),
        member_named(members, "name"@) matches Some(m) && m.text == Some(name),
        member_named(members, "age"@) matches Some(m) && m.integer == Some(age),
        i32::MIN <= age <= i32::MAX,
    ensures
        outcome(upload_rules(), request, quoting) == Ok::<NewUserView, RejectionView>(
            NewUserView { avatar: avatar.bytes, user: UserView { name, age } },
        ),
{
    reveal_strlit("avatar");
    reveal_strlit("data");
    assert("avatar"@.len() != "data"@.len());
    let parts = request.body->Ok_0;
    assert(verdict(upload_rules(), avatar) is None);
    assert(verdict(upload_rules(), data) is None);
    lemma_all_pass(upload_rules(), parts);
    let a = if parts[0] == avatar { 0int } else { 1int };
    let d = 1 - a;
    lemma_single(parts, "avatar"@, a);
    lemma_single(parts, "data"@, d);
    assert(user_of(members) == Ok::<UserView, Seq<char>>(UserView { name, age }));
}

/// A request that is sent again is answered as it was the first time:
/// the answer depends on the request alone.
pub proof fn law_resubmission(
    schema: Map<Seq<char>, FieldRule>,
    first: RawRequestView,
    second: RawRequestView,
    quoting: Quoting,
)
    requires
        first == second,
        outcome(schema, first, quoting) is Ok,
    ensures
        outcome(schema, second, quoting) == outcome(schema, first, quoting),
{
}

} // verus!
