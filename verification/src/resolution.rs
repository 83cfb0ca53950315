//! Lists of role names: how a comma-separated list is split into names, and
//! what the names resolve to.
use crate::role::ActorTypes;
use vstd::prelude::*;
use vstd::string::*;

verus! {

/// The names of a comma-separated list: the pieces between its commas, in order.
/// A list with `n` commas has `n + 1` names, some of which may be empty.
pub open spec fn split_names(text: Seq<char>) -> Seq<Seq<char>>
    decreases text.len(),
{
    if text.len() == 0 {
        seq![Seq::<char>::empty()]
    } else {
        let before = split_names(text.drop_last());
        if text.last() == ',' {
            before.push(Seq::<char>::empty())
        } else {
            before.drop_last().push(before.last().push(text.last()))
        }
    }
}

/// The text of a list of names: the names in order, with a comma between each
/// two neighbours.
pub open spec fn join_names(names: Seq<Seq<char>>) -> Seq<char>
    decreases names.len(),
{
    if names.len() == 0 {
        Seq::empty()
    } else if names.len() == 1 {
        names[0]
    } else {
        join_names(names.drop_last()) + seq![','] + names.last()
    }
}

/// The roles that a list of names denotes, in order. A name that denotes no role
/// contributes nothing.
pub open spec fn roles_of_names(names: Seq<Seq<char>>) -> Seq<ActorTypes> {
    names.filter_map(|name: Seq<char>| ActorTypes::of_name(name))
}

/// The names of a list that denote no role, in order.
pub open spec fn names_without_role(names: Seq<Seq<char>>) -> Seq<Seq<char>> {
    names.filter(|name: Seq<char>| ActorTypes::of_name(name) is None)
}

/// The roles that a comma-separated list of role names resolves to.
pub open spec fn resolved_roles(declared: Seq<char>) -> Seq<ActorTypes> {
    roles_of_names(split_names(declared))
}

/// The names in a comma-separated list of role names that resolve to no role.
pub open spec fn unknown_names(declared: Seq<char>) -> Seq<Seq<char>> {
    names_without_role(split_names(declared))
}

/// What a comma-separated list of role names resolves to.
#[derive(Debug)]
pub struct Resolution {
    /// The roles named in the list, in the order of the list.
    pub roles: Vec<ActorTypes>,
    /// The names in the list that are no role's name, in the order of the list.
    pub unknown: Vec<String>,
}

/// Resolves a comma-separated list of role names. Names are taken as they
/// stand between the commas; one that is no role's name is set aside, and the
/// others still resolve.
pub fn resolve_roles(declared: &str) -> (resolution: Resolution)
    ensures
        resolution.roles@ == resolved_roles(declared@),
        resolution.unknown.deep_view() == unknown_names(declared@),
{
    let n: usize = declared.unicode_len();
    let mut resolution = Resolution { roles: Vec::new(), unknown: Vec::new() };
    let mut start: usize = 0;
    let mut i: usize = 0;
    proof {
        reveal(Seq::filter);
    }
    for c in it: declared.chars()
        invariant
            it.seq() == declared@,
            i == it.index(),
            n == declared@.len(),
            start <= i <= n,
            split_names(declared@.take(i as int)).len() >= 1,
            split_names(declared@.take(i as int)).last() == declared@.subrange(
                start as int,
                i as int,
            ),
            resolution.roles@ == roles_of_names(split_names(declared@.take(i as int)).drop_last()),
            resolution.unknown.deep_view() == names_without_role(
                split_names(declared@.take(i as int)).drop_last(),
            ),
    {
        let ghost before = split_names(declared@.take(i as int));
        let ghost after = split_names(declared@.take(i + 1));
        proof {
            assert(declared@.take(i + 1).drop_last() =~= declared@.take(i as int));
        }
        if c == ',' {
            let name = declared.substring_char(start, i);
            record_name(&mut resolution, name);
            start = i + 1;
            proof {
                assert(after.drop_last() =~= before);
                assert(before =~= before.drop_last().push(before.last()));
                lemma_names_push(before.drop_last(), before.last());
            }
        } else {
            proof {
                assert(after.drop_last() =~= before.drop_last());
            }
        }
        i += 1;
    }
    let name = declared.substring_char(start, n);
    let ghost names = split_names(declared@);
    proof {
        assert(declared@.take(n as int) =~= declared@);
        lemma_names_push(names.drop_last(), names.last());
    }
    record_name(&mut resolution, name);
    resolution
}

/// Adds what one name resolves to.
fn record_name(resolution: &mut Resolution, name: &str)
    ensures
        final(resolution).roles@ == match ActorTypes::of_name(name@) {
            Some(role) => old(resolution).roles@.push(role),
            None => old(resolution).roles@,
        },
        final(resolution).unknown.deep_view() == match ActorTypes::of_name(name@) {
            Some(role) => old(resolution).unknown.deep_view(),
            None => old(resolution).unknown.deep_view().push(name@),
        },
{
    match ActorTypes::from_str(name) {
        Ok(role) => {
            resolution.roles.push(role);
        },
        Err(_) => {
            resolution.unknown.push(name.to_owned());
        },
    }
}

/// What one more name adds to the resolution of a list of names.
pub proof fn lemma_names_push(names: Seq<Seq<char>>, name: Seq<char>)
    ensures
        roles_of_names(names.push(name)) == match ActorTypes::of_name(name) {
            Some(role) => roles_of_names(names).push(role),
            None => roles_of_names(names),
        },
        names_without_role(names.push(name)) == match ActorTypes::of_name(name) {
            Some(role) => names_without_role(names),
            None => names_without_role(names).push(name),
        },
{
    reveal(Seq::filter);
    assert(names.push(name).drop_last() =~= names);
}

/// Every name of a list either resolves to a role or is set aside as unknown.
/// So a list of which no name is a role's name resolves to no role at all.
pub proof fn lemma_names_resolve_or_are_unknown(declared: Seq<char>)
    ensures
        resolved_roles(declared).len() + unknown_names(declared).len() == split_names(
            declared,
        ).len(),
{
    lemma_names_split_in_two(split_names(declared));
}

/// Every name of a list of names is counted once, as a role or as unknown.
proof fn lemma_names_split_in_two(names: Seq<Seq<char>>)
    ensures
        roles_of_names(names).len() + names_without_role(names).len() == names.len(),
    decreases names.len(),
{
    reveal(Seq::filter);
    if names.len() > 0 {
        lemma_names_split_in_two(names.drop_last());
        lemma_names_push(names.drop_last(), names.last());
    }
}

/// Splitting loses nothing and cuts at every comma: the names of a list, joined
/// by commas, are the list again, and no name holds a comma.
pub proof fn lemma_split_names_joins_back(text: Seq<char>)
    ensures
        split_names(text).len() >= 1,
        join_names(split_names(text)) == text,
        forall|i: int|
            0 <= i < split_names(text).len() ==> !(#[trigger] split_names(text)[i]).contains(','),
    decreases text.len(),
{
    if text.len() > 0 {
        let init = text.drop_last();
        let last = text.last();
        let before = split_names(init);
        let after = split_names(text);
        lemma_split_names_joins_back(init);
        if last == ',' {
            assert(after.drop_last() =~= before);
        } else {
            let grown = before.last().push(last);
            assert(after.drop_last() =~= before.drop_last());
            if before.len() > 1 {
                assert(join_names(before.drop_last()) + seq![','] + grown =~= (join_names(
                    before.drop_last(),
                ) + seq![','] + before.last()).push(last));
            }
            assert forall|i: int| 0 <= i < after.len() implies !(#[trigger] after[i]).contains(
                ',',
            ) by {
                if i == before.len() - 1 && grown.contains(',') {
                    let k = choose|k: int| 0 <= k < grown.len() && grown[k] == ',';
                    assert(before.last()[k] == ',');
                }
            }
        }
    }
}

/// A text without a comma is a list of one name: the text itself.
pub proof fn lemma_split_names_plain(text: Seq<char>)
    requires
        !text.contains(','),
    ensures
        split_names(text) == seq![text],
    decreases text.len(),
{
    if text.len() == 0 {
        assert(text =~= Seq::<char>::empty());
    } else {
        let init = text.drop_last();
        assert(!init.contains(',')) by {
            assert forall|i: int| 0 <= i < init.len() implies init[i] != ',' by {
                assert(text[i] == init[i]);
            }
        }
        lemma_split_names_plain(init);
        assert(init.push(text.last()) =~= text);
    }
}

/// A comma ends the names before it: what follows the last comma of a list is
/// its last name.
pub proof fn lemma_split_names_append(list: Seq<char>, name: Seq<char>)
    requires
        !name.contains(','),
    ensures
        split_names(list + seq![','] + name) == split_names(list).push(name),
    decreases name.len(),
{
    let text = list + seq![','] + name;
    if name.len() == 0 {
        assert(text.drop_last() =~= list);
        assert(name =~= Seq::<char>::empty());
    } else {
        let init = name.drop_last();
        assert(!init.contains(',')) by {
            assert forall|i: int| 0 <= i < init.len() implies init[i] != ',' by {
                assert(name[i] == init[i]);
            }
        }
        lemma_split_names_append(list, init);
        assert(text.drop_last() =~= list + seq![','] + init);
        assert(init.push(name.last()) =~= name);
    }
}

} // verus!
