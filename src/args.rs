use vstd::prelude::*;

use crate::input::flag;
use crate::text::{decimal, decimal_of, lemma_views_push, views};

verus! {

/// `name` when the switch is on.
pub open spec fn switch(b: Option<bool>, name: Seq<char>) -> Seq<Seq<char>> {
    if flag(b, false) {
        seq![name]
    } else {
        Seq::empty()
    }
}

/// `name` and the number, when given.
pub open spec fn count_opt(o: Option<u64>, name: Seq<char>) -> Seq<Seq<char>> {
    match o {
        Some(n) => seq![name, decimal_of(n as nat)],
        None => Seq::empty(),
    }
}

/// `name` and the value, when given.
pub open spec fn value_opt(o: Option<String>, name: Seq<char>) -> Seq<Seq<char>> {
    match o {
        Some(v) => seq![name, v@],
        None => Seq::empty(),
    }
}

/// `name` before each item.
pub open spec fn repeated(name: Seq<char>, items: Seq<Seq<char>>) -> Seq<Seq<char>>
    decreases items.len(),
{
    if items.len() == 0 {
        Seq::empty()
    } else {
        repeated(name, items.drop_last()) + seq![name, items.last()]
    }
}

/// The items of an optional list.
pub open spec fn opt_items(o: Option<Vec<String>>) -> Seq<Seq<char>> {
    match o {
        Some(v) => views(v@),
        None => Seq::empty(),
    }
}

/// The item views of an optional list, absent when the list is.
pub open spec fn opt_list_view(o: Option<Vec<String>>) -> Option<Seq<Seq<char>>> {
    match o {
        Some(v) => Some(views(v@)),
        None => None,
    }
}

/// Appends one argument.
pub fn push_arg(v: &mut Vec<String>, a: &str)
    ensures
        views(final(v)@) == views(old(v)@) + seq![a@],
{
    let s = a.to_owned();
    proof {
        lemma_views_push(v@, s);
    }
    v.push(s);
    assert(views(v@) =~= views(old(v)@) + seq![a@]);
}

/// Appends `name` when the switch is on.
pub fn push_switch(v: &mut Vec<String>, b: Option<bool>, name: &str)
    ensures
        views(final(v)@) == views(old(v)@) + switch(b, name@),
{
    let on = match b {
        Some(x) => x,
        None => false,
    };
    if on {
        push_arg(v, name);
    } else {
        assert(views(v@) =~= views(old(v)@) + switch(b, name@));
    }
}

/// Appends `name` and the number, when given.
pub fn push_count(v: &mut Vec<String>, o: Option<u64>, name: &str)
    ensures
        views(final(v)@) == views(old(v)@) + count_opt(o, name@),
{
    match o {
        Some(n) => {
            push_arg(v, name);
            let d = decimal(n);
            push_arg(v, d.as_str());
            assert(views(v@) =~= views(old(v)@) + count_opt(o, name@));
        },
        None => {
            assert(views(v@) =~= views(old(v)@) + count_opt(o, name@));
        },
    }
}

/// Appends `name` and the value, when given.
pub fn push_value(v: &mut Vec<String>, o: &Option<String>, name: &str)
    ensures
        views(final(v)@) == views(old(v)@) + value_opt(*o, name@),
{
    match o {
        Some(x) => {
            push_arg(v, name);
            push_arg(v, x.as_str());
            assert(views(v@) =~= views(old(v)@) + value_opt(*o, name@));
        },
        None => {
            assert(views(v@) =~= views(old(v)@) + value_opt(*o, name@));
        },
    }
}

/// Appends `name` before each item.
pub fn push_each(v: &mut Vec<String>, items: &Vec<String>, name: &str)
    ensures
        views(final(v)@) == views(old(v)@) + repeated(name@, views(items@)),
{
    let mut i: usize = 0;
    while i < items.len()
        invariant
            i <= items.len(),
            views(v@) == views(old(v)@) + repeated(name@, views(items@.subrange(0, i as int))),
        decreases items.len() - i,
    {
        let ghost before = views(v@);
        push_arg(v, name);
        push_arg(v, items[i].as_str());
        assert(views(items@.subrange(0, i + 1)).drop_last() =~= views(items@.subrange(0, i as int)));
        assert(views(v@) =~= views(old(v)@) + repeated(name@, views(items@.subrange(0, i + 1))));
        i = i + 1;
    }
    assert(items@.subrange(0, items.len() as int) =~= items@);
}

/// Appends `name` before each item of an optional list.
pub fn push_each_opt(v: &mut Vec<String>, items: &Option<Vec<String>>, name: &str)
    ensures
        views(final(v)@) == views(old(v)@) + repeated(name@, opt_items(*items)),
{
    match items {
        Some(x) => push_each(v, x, name),
        None => {
            assert(repeated(name@, opt_items(*items)) =~= Seq::<Seq<char>>::empty());
            assert(views(v@) =~= views(old(v)@) + repeated(name@, opt_items(*items)));
        },
    }
}

} // verus!
