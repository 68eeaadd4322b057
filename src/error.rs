use vstd::prelude::*;

verus! {

/// An error of the lookup interface, by the response it calls for.
#[derive(Debug, Clone)]
pub enum Error {
    /// The id is unknown here and upstream: `404 Not Found`.
    NotFound,
    /// The request is malformed: `422 Unprocessable Entity`, with the
    /// messages of each offending field, one group per field.
    UnprocessableEntity { errors: Vec<(String, Vec<String>)> },
    /// Anything else: `500 Internal Server Error`. The message is for the
    /// server log, never for the caller.
    Internal { message: String },
}

/// The (field, message) pairs as plain sequences.
pub open spec fn pair_views(pairs: Seq<(String, String)>) -> Seq<(Seq<char>, Seq<char>)> {
    pairs.map_values(|p: (String, String)| (p.0@, p.1@))
}

/// The messages given for `field`, in order.
pub open spec fn messages_for(pairs: Seq<(Seq<char>, Seq<char>)>, field: Seq<char>) -> Seq<Seq<char>>
    decreases pairs.len(),
{
    if pairs.len() == 0 {
        Seq::empty()
    } else {
        let rest = messages_for(pairs.drop_last(), field);
        if pairs.last().0 == field { rest.push(pairs.last().1) } else { rest }
    }
}

/// The fields named by the pairs, each once, in order of first appearance.
pub open spec fn fields_of(pairs: Seq<(Seq<char>, Seq<char>)>) -> Seq<Seq<char>>
    decreases pairs.len(),
{
    if pairs.len() == 0 {
        Seq::empty()
    } else {
        let rest = fields_of(pairs.drop_last());
        if rest.contains(pairs.last().0) { rest } else { rest.push(pairs.last().0) }
    }
}

/// The pairs grouped by field: each field once, with all its messages.
pub open spec fn grouped(pairs: Seq<(Seq<char>, Seq<char>)>) -> Seq<(Seq<char>, Seq<Seq<char>>)> {
    fields_of(pairs).map_values(|f: Seq<char>| (f, messages_for(pairs, f)))
}

/// A group of messages as plain sequences.
pub open spec fn group_view(g: (String, Vec<String>)) -> (Seq<char>, Seq<Seq<char>>) {
    (g.0@, g.1@.map_values(|m: String| m@))
}

/// The groups of messages as plain sequences.
pub open spec fn group_views(groups: Seq<(String, Vec<String>)>) -> Seq<(Seq<char>, Seq<Seq<char>>)> {
    groups.map_values(|g: (String, Vec<String>)| group_view(g))
}

/// A field with a message is among the fields.
proof fn lemma_messages_imply_field(pairs: Seq<(Seq<char>, Seq<char>)>, field: Seq<char>)
    ensures
        !fields_of(pairs).contains(field) ==> messages_for(pairs, field).len() == 0,
    decreases pairs.len(),
{
    if pairs.len() > 0 {
        lemma_messages_imply_field(pairs.drop_last(), field);
        let rest = fields_of(pairs.drop_last());
        if !rest.contains(pairs.last().0) {
            assert(fields_of(pairs) == rest.push(pairs.last().0));
            assert(fields_of(pairs).last() == pairs.last().0);
        }
        if !fields_of(pairs).contains(field) {
            if rest.contains(field) {
                let i = choose|i: int| 0 <= i < rest.len() && rest[i] == field;
                if !rest.contains(pairs.last().0) {
                    assert(fields_of(pairs)[i] == field);
                }
            }
            if pairs.last().0 == field {
                if rest.contains(pairs.last().0) {
                } else {
                    assert(fields_of(pairs)[rest.len() as int] == field);
                }
            }
        }
    }
}

/// No field is named twice.
proof fn lemma_fields_distinct(pairs: Seq<(Seq<char>, Seq<char>)>)
    ensures
        fields_of(pairs).no_duplicates(),
    decreases pairs.len(),
{
    if pairs.len() > 0 {
        lemma_fields_distinct(pairs.drop_last());
    }
}

impl Error {
    /// The error for a malformed request, from (field, message) pairs: the
    /// messages are grouped by field, fields in order of first appearance,
    /// each field's messages in their given order.
    pub fn unprocessable_entity(errors: Vec<(String, String)>) -> (r: Error)
        ensures
            r matches Error::UnprocessableEntity { errors: groups }
                && group_views(groups@) == grouped(pair_views(errors@))
                && group_views(groups@).map_values(|g: (Seq<char>, Seq<Seq<char>>)| g.0).no_duplicates(),
    {
        let ghost all = pair_views(errors@);
        let mut groups: Vec<(String, Vec<String>)> = Vec::new();
        for pair in it: errors
            invariant
                it.seq() == errors@,
                all == pair_views(errors@),
                group_views(groups@) == grouped(all.take(it.index() as int)),
        {
            let ghost i = it.index() as int;
            let ghost before = all.take(i);
            let ghost after = all.take(i + 1);
            proof {
                assert(after.drop_last() =~= before);
                assert(after.last() == (pair.0@, pair.1@));
                lemma_messages_imply_field(before, pair.0@);
            }
            let (field, message) = pair;
            let mut j: usize = 0;
            let mut found = false;
            while j < groups.len() && !found
                invariant
                    j <= groups@.len(),
                    forall|k: int| 0 <= k < j ==> groups@[k].0@ != field@,
                    found ==> j < groups@.len() && groups@[j as int].0@ == field@,
                decreases groups@.len() - j + (if found { 0int } else { 1int }),
            {
                if groups[j].0 == field {
                    found = true;
                } else {
                    j = j + 1;
                }
            }
            let ghost old_groups = groups@;
            proof {
                assert(group_views(old_groups).len() == fields_of(before).len());
                assert forall|k: int| 0 <= k < old_groups.len() implies #[trigger] old_groups[k].0@ == fields_of(before)[k] by {
                    assert(group_views(old_groups)[k] == grouped(before)[k]);
                }
            }
            if found {
                let (key, mut messages) = groups.remove(j);
                messages.push(message);
                groups.insert(j, (key, messages));
                proof {
                    assert(fields_of(before).contains(field@)) by {
                        assert(fields_of(before)[j as int] == field@);
                    }
                    assert(fields_of(after) == fields_of(before));
                    lemma_fields_distinct(before);
                    assert(messages_for(after, field@) == messages_for(before, field@).push(message@));
                    assert(groups@ =~= old_groups.update(j as int, groups@[j as int]));
                    assert(group_views(groups@) =~= grouped(after)) by {
                        assert forall|k: int| 0 <= k < groups@.len() implies #[trigger] group_views(groups@)[k] == grouped(after)[k] by {
                            assert(group_views(old_groups)[k] == grouped(before)[k]);
                            if k == j {
                                assert(group_view(groups@[k]).1 =~= group_view(old_groups[k]).1.push(message@));
                            } else {
                                assert(fields_of(before)[k] != fields_of(before)[j as int]);
                                assert(messages_for(after, fields_of(before)[k]) == messages_for(before, fields_of(before)[k]));
                            }
                        }
                    }
                }
            } else {
                let mut messages: Vec<String> = Vec::new();
                messages.push(message);
                groups.push((field, messages));
                proof {
                    assert(!fields_of(before).contains(field@)) by {
                        if fields_of(before).contains(field@) {
                            let k = choose|k: int| 0 <= k < fields_of(before).len() && fields_of(before)[k] == field@;
                            assert(old_groups[k].0@ == fields_of(before)[k]);
                        }
                    }
                    assert(fields_of(after) == fields_of(before).push(field@));
                    assert(group_views(groups@) =~= grouped(after)) by {
                        assert forall|k: int| 0 <= k < groups@.len() implies #[trigger] group_views(groups@)[k] == grouped(after)[k] by {
                            if k < old_groups.len() {
                                assert(group_views(old_groups)[k] == grouped(before)[k]);
                                assert(groups@[k] == old_groups[k]);
                                assert(fields_of(before)[k] != field@);
                                assert(messages_for(after, fields_of(before)[k]) == messages_for(before, fields_of(before)[k]));
                            } else {
                                assert(group_view(groups@[k]).1 =~= seq![message@]);
                                assert(messages_for(before, field@).len() == 0);
                                assert(messages_for(after, field@) =~= seq![message@]);
                            }
                        }
                    }
                }
            }
        }
        proof {
            assert(all.take(all.len() as int) =~= all);
            lemma_fields_distinct(all);
            assert(group_views(groups@).map_values(|g: (Seq<char>, Seq<Seq<char>>)| g.0) =~= fields_of(all));
        }
        Error::UnprocessableEntity { errors: groups }
    }

    /// The HTTP status of the response this error calls for.
    pub fn status_code(&self) -> (r: u16)
        ensures
            r == (match self {
                Error::NotFound => 404u16,
                Error::UnprocessableEntity { .. } => 422u16,
                Error::Internal { .. } => 500u16,
            }),
    {
        match self {
            Error::NotFound => 404,
            Error::UnprocessableEntity { .. } => 422,
            Error::Internal { .. } => 500,
        }
    }

    /// The text shown to the caller; it never carries internal detail.
    pub fn message(&self) -> (r: &'static str)
        ensures
            r@ == (match self {
                Error::NotFound => "not found"@,
                Error::UnprocessableEntity { .. } => "error in the request body"@,
                Error::Internal { .. } => "an internal server error occurred"@,
            }),
    {
        match self {
            Error::NotFound => "not found",
            Error::UnprocessableEntity { .. } => "error in the request body",
            Error::Internal { .. } => "an internal server error occurred",
        }
    }
}

} // verus!
