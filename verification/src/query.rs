//! The query that selects files by where they are and by whether they are in the trash.

use crate::text::{concat3, join};
use vstd::prelude::*;
use vstd::string::StringExecFns;

verus! {

use crate::text::{joined, texts};

/// Selects what lies in one folder.
pub open spec fn parent_clause(id: Seq<char>) -> Seq<char> {
    "'"@ + id + "' in parents"@
}

/// Selects what lies in any of the folders.
pub open spec fn parents_clause(ids: Seq<Seq<char>>) -> Seq<char> {
    "("@ + joined(ids.map_values(|id: Seq<char>| parent_clause(id)), " or "@) + ")"@
}

/// Selects what is in the trash, or what is not.
pub open spec fn trashed_clause(trashed: bool) -> Seq<char> {
    "trashed = "@ + if trashed {
        "true"@
    } else {
        "false"@
    }
}

/// The query for the given folders, if any are given, and the given state, if one is given.
pub open spec fn query_text(parents: Option<Seq<Seq<char>>>, trashed: Option<bool>) -> Seq<char> {
    match (parents, trashed) {
        (Some(ids), Some(t)) => parents_clause(ids) + " and "@ + trashed_clause(t),
        (Some(ids), None) => parents_clause(ids),
        (None, Some(t)) => trashed_clause(t),
        (None, None) => Seq::empty(),
    }
}

/// What an optional list of strings says.
pub open spec fn optional_texts(list: Option<Vec<String>>) -> Option<Seq<Seq<char>>> {
    match list {
        Some(v) => Some(texts(v@)),
        None => None,
    }
}

fn parents_part(ids: &Vec<String>) -> (r: String)
    ensures
        r@ == parents_clause(texts(ids@)),
{
    let mut clauses: Vec<String> = Vec::new();
    let mut i: usize = 0;
    while i < ids.len()
        invariant
            i <= ids@.len(),
            clauses@.len() == i,
            forall|j: int| 0 <= j < i ==> (#[trigger] clauses@[j])@ == parent_clause(ids@[j]@),
        decreases ids@.len() - i,
    {
        clauses.push(concat3("'", ids[i].as_str(), "' in parents"));
        i = i + 1;
    }
    assert(texts(clauses@) =~= texts(ids@).map_values(|id: Seq<char>| parent_clause(id)));
    concat3("(", join(&clauses, " or ").as_str(), ")")
}

fn trashed_part(trashed: bool) -> (r: String)
    ensures
        r@ == trashed_clause(trashed),
{
    let mut r = "trashed = ".to_owned();
    r.append(
        if trashed {
            "true"
        } else {
            "false"
        },
    );
    r
}

/// Builds the query.
pub fn files_query(parents: &Option<Vec<String>>, trashed: Option<bool>) -> (r: String)
    ensures
        r@ == query_text(optional_texts(*parents), trashed),
{
    let mut query_chain: Vec<String> = Vec::new();
    if let Some(ids) = parents {
        query_chain.push(parents_part(ids));
    }
    if let Some(t) = trashed {
        query_chain.push(trashed_part(t));
    }
    let ghost parts = texts(query_chain@);
    proof {
        reveal_with_fuel(joined, 3);
        if parts.len() == 2 {
            assert(parts.drop_last() =~= seq![parts[0]]);
            assert(joined(parts, " and "@) == parts[0] + (" and "@ + parts[1]));
            assert(joined(parts, " and "@) =~= parts[0] + " and "@ + parts[1]);
        }
    }
    join(&query_chain, " and ")
}

/// Without folders and without a state everything is selected.
pub proof fn law_query_of_nothing()
    ensures
        query_text(None, None) == Seq::<char>::empty(),
{
}

/// The state of the trash is asked for by its name.
pub proof fn law_query_of_trash(trashed: bool)
    ensures
        query_text(None, Some(trashed)) == if trashed {
            "trashed = true"@
        } else {
            "trashed = false"@
        },
{
    reveal_strlit("trashed = ");
    reveal_strlit("true");
    reveal_strlit("false");
    reveal_strlit("trashed = true");
    reveal_strlit("trashed = false");
    assert(query_text(None, Some(true)) =~= "trashed = true"@);
    assert(query_text(None, Some(false)) =~= "trashed = false"@);
}

/// With both folders and a state given, the query asks for both at once, however many folders
/// there are.
pub proof fn law_query_is_a_conjunction(ids: Seq<Seq<char>>, trashed: bool)
    ensures
        query_text(Some(ids), Some(trashed)) == query_text(Some(ids), None) + " and "@
            + query_text(None, Some(trashed)),
{
}

/// What lies in one folder is asked for by the id of the folder, in brackets.
pub proof fn law_query_of_one_folder(id: Seq<char>)
    ensures
        query_text(Some(seq![id]), None) == "('"@ + id + "' in parents)"@,
        query_text(Some(Seq::empty()), None) == "()"@,
{
    reveal_strlit("'");
    reveal_strlit("' in parents");
    reveal_strlit("(");
    reveal_strlit(")");
    reveal_strlit("('");
    reveal_strlit("' in parents)");
    reveal_strlit("()");
    let none = Seq::<Seq<char>>::empty().map_values(|id: Seq<char>| parent_clause(id));
    assert(none =~= Seq::empty());
    assert(query_text(Some(Seq::empty()), None) =~= "()"@);
    let one = seq![id].map_values(|id: Seq<char>| parent_clause(id));
    assert(one =~= seq![parent_clause(id)]);
    crate::text::law_join_of_few(parent_clause(id), " or "@);
    assert(query_text(Some(seq![id]), None) =~= "('"@ + id + "' in parents)"@);
}

/// One more folder is one more alternative, at the end and inside the brackets; nothing else of
/// the query changes.
pub proof fn law_query_of_one_more_folder(ids: Seq<Seq<char>>, id: Seq<char>)
    requires
        ids.len() > 0,
    ensures
        query_text(Some(ids.push(id)), None) == query_text(Some(ids), None).drop_last()
            + " or '"@ + id + "' in parents)"@,
{
    reveal_strlit("'");
    reveal_strlit("' in parents");
    reveal_strlit("(");
    reveal_strlit(")");
    reveal_strlit(" or ");
    reveal_strlit(" or '");
    reveal_strlit("' in parents)");
    let clauses = ids.map_values(|id: Seq<char>| parent_clause(id));
    let more = ids.push(id).map_values(|id: Seq<char>| parent_clause(id));
    assert(more.drop_last() =~= clauses);
    assert(more.last() == parent_clause(id));
    let text = joined(clauses, " or "@);
    assert(query_text(Some(ids), None).drop_last() =~= "("@ + text);
    assert(" or '"@ =~= " or "@ + "'"@);
    assert("' in parents)"@ =~= "' in parents"@ + ")"@);
    assert(query_text(Some(ids.push(id)), None) =~= query_text(Some(ids), None).drop_last()
        + " or '"@ + id + "' in parents)"@);
}

/// The folders of a query are those given, each as it is and in order; none given is not the
/// same as an empty list of them.
pub proof fn law_folders_as_given(list: Vec<String>)
    ensures
        optional_texts(None) is None,
        optional_texts(Some(list)) matches Some(ids) && ids.len() == list@.len() && forall|i: int|
            0 <= i < ids.len() ==> #[trigger] ids[i] == list@[i]@,
{
}

} // verus!
