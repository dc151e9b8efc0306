use vstd::prelude::*;

verus! {

/// The byte that separates names in the runtime's extension lists.
pub const NAME_SEPARATOR: u8 = 0x20;

/// Splits `s` at every separator, as `str::split(' ')` does: consecutive
/// separators give empty pieces, and there is always at least one piece.
pub open spec fn split_spec(s: Seq<u8>) -> Seq<Seq<u8>>
    decreases s.len(),
{
    if s.len() == 0 {
        seq![Seq::<u8>::empty()]
    } else {
        let rest = split_spec(s.drop_first());
        if s[0] == NAME_SEPARATOR {
            seq![Seq::<u8>::empty()] + rest
        } else {
            rest.update(0, seq![s[0]] + rest[0])
        }
    }
}

/// The device extension the runtimes still list although it is part of
/// debug utils now: `VK_EXT_debug_marker`.
pub open spec fn debug_marker_name() -> Seq<u8> {
    seq![
        86u8, 75u8, 95u8, 69u8, 88u8, 84u8, 95u8, 100u8, 101u8, 98u8,
        117u8, 103u8, 95u8, 109u8, 97u8, 114u8, 107u8, 101u8, 114u8,
    ]
}

pub open spec fn is_kept_device_extension(name: Seq<u8>) -> bool {
    name != debug_marker_name()
}

pub open spec fn kept_device_extension() -> spec_fn(Seq<u8>) -> bool {
    |p: Seq<u8>| is_kept_device_extension(p)
}

pub open spec fn deep_view(v: Seq<Vec<u8>>) -> Seq<Seq<u8>> {
    v.map_values(|p: Vec<u8>| p@)
}

pub open spec fn has_no_separator(s: Seq<u8>) -> bool {
    forall|i: int| 0 <= i < s.len() ==> s[i] != NAME_SEPARATOR
}

proof fn lemma_split_nonempty(s: Seq<u8>)
    ensures
        split_spec(s).len() >= 1,
    decreases s.len(),
{
    if s.len() > 0 {
        lemma_split_nonempty(s.drop_first());
    }
}

/// A piece without separators joins the first piece of what follows.
proof fn lemma_split_prefix(cur: Seq<u8>, t: Seq<u8>)
    requires
        has_no_separator(cur),
    ensures
        split_spec(cur + t) == split_spec(t).update(0, cur + split_spec(t)[0]),
    decreases cur.len(),
{
    lemma_split_nonempty(t);
    if cur.len() == 0 {
        assert(cur + t =~= t);
        assert(cur + split_spec(t)[0] =~= split_spec(t)[0]);
        assert(split_spec(t).update(0, split_spec(t)[0]) =~= split_spec(t));
    } else {
        let c = cur[0];
        let rest = cur.drop_first();
        assert(has_no_separator(rest)) by {
            assert forall|i: int| 0 <= i < rest.len() implies rest[i] != NAME_SEPARATOR by {
                assert(rest[i] == cur[i + 1]);
            }
        }
        lemma_split_prefix(rest, t);
        assert((cur + t).drop_first() =~= rest + t);
        assert((cur + t)[0] == c);
        assert(seq![c] + (rest + split_spec(t)[0]) =~= cur + split_spec(t)[0]);
        assert(split_spec(cur + t) =~= split_spec(t).update(0, cur + split_spec(t)[0]));
    }
}

/// The names in a space-separated list, as `str::split(' ')` gives them.
pub fn split_extension_names(list: &Vec<u8>) -> (r: Vec<Vec<u8>>)
    ensures
        deep_view(r@) == split_spec(list@),
{
    let mut pieces: Vec<Vec<u8>> = Vec::new();
    let mut cur: Vec<u8> = Vec::new();
    let mut i: usize = 0;
    proof {
        assert(deep_view(pieces@) =~= Seq::<Seq<u8>>::empty());
        assert(cur@ + list@.subrange(0, list@.len() as int) =~= list@);
    }
    while i < list.len()
        invariant
            i <= list@.len(),
            has_no_separator(cur@),
            split_spec(list@) == deep_view(pieces@) + split_spec(cur@ + list@.subrange(i as int, list@.len() as int)),
        decreases list@.len() - i,
    {
        let b = list[i];
        let ghost tail = list@.subrange(i as int + 1, list@.len() as int);
        proof {
            assert(list@.subrange(i as int, list@.len() as int) =~= seq![b] + tail);
        }
        if b == NAME_SEPARATOR {
            proof {
                lemma_split_prefix(cur@, seq![b] + tail);
                assert((seq![b] + tail).drop_first() =~= tail);
                lemma_split_nonempty(tail);
                assert(cur@ + split_spec(seq![b] + tail)[0] =~= cur@);
                assert(cur@ + list@.subrange(i as int, list@.len() as int) =~= cur@ + (seq![b] + tail));
                assert(split_spec(cur@ + (seq![b] + tail)) =~= seq![cur@] + split_spec(tail));
            }
            let ghost old_pieces = pieces@;
            let ghost old_cur = cur@;
            pieces.push(cur);
            cur = Vec::new();
            proof {
                assert(deep_view(pieces@) =~= deep_view(old_pieces) + seq![old_cur]);
                assert(cur@ + tail =~= tail);
            }
        } else {
            let ghost old_cur = cur@;
            cur.push(b);
            proof {
                assert(cur@ + tail =~= old_cur + (seq![b] + tail));
                assert forall|k: int| 0 <= k < cur@.len() implies cur@[k] != NAME_SEPARATOR by {
                    if k < old_cur.len() {
                        assert(cur@[k] == old_cur[k]);
                    }
                }
            }
        }
        i += 1;
    }
    proof {
        assert(list@.subrange(i as int, list@.len() as int) =~= Seq::<u8>::empty());
        assert(cur@ + Seq::<u8>::empty() =~= cur@);
        lemma_split_prefix(cur@, Seq::<u8>::empty());
        assert(split_spec(Seq::<u8>::empty()) == seq![Seq::<u8>::empty()]);
        assert(cur@ + Seq::<u8>::empty() =~= cur@);
        assert(split_spec(cur@) =~= seq![cur@]);
    }
    let ghost old_pieces = pieces@;
    let ghost old_cur = cur@;
    pieces.push(cur);
    proof {
        assert(deep_view(pieces@) =~= deep_view(old_pieces) + seq![old_cur]);
    }
    pieces
}

/// Whether two names hold the same bytes.
pub fn same_name(a: &Vec<u8>, b: &Vec<u8>) -> (r: bool)
    ensures
        r == (a@ == b@),
{
    if a.len() != b.len() {
        return false;
    }
    let mut i: usize = 0;
    while i < a.len()
        invariant
            a@.len() == b@.len(),
            i <= a@.len(),
            forall|k: int| 0 <= k < i ==> a@[k] == b@[k],
        decreases a@.len() - i,
    {
        if a[i] != b[i] {
            return false;
        }
        i += 1;
    }
    proof {
        assert(a@ =~= b@);
    }
    true
}

fn is_debug_marker(name: &Vec<u8>) -> (r: bool)
    ensures
        r == (name@ == debug_marker_name()),
{
    let marker: Vec<u8> = vec![
        86u8, 75u8, 95u8, 69u8, 88u8, 84u8, 95u8, 100u8, 101u8, 98u8,
        117u8, 103u8, 95u8, 109u8, 97u8, 114u8, 107u8, 101u8, 114u8,
    ];
    proof {
        assert(marker@ =~= debug_marker_name());
    }
    same_name(name, &marker)
}

/// The instance extensions a runtime asks for, from its space-separated list.
pub fn get_instance_extensions(list: &Vec<u8>) -> (r: Vec<Vec<u8>>)
    ensures
        deep_view(r@) == split_spec(list@),
{
    split_extension_names(list)
}

/// The device extensions a runtime asks for, from its space-separated list,
/// without `VK_EXT_debug_marker`, which debug utils replaced.
pub fn get_device_extensions(list: &Vec<u8>) -> (r: Vec<Vec<u8>>)
    ensures
        deep_view(r@) == split_spec(list@).filter(kept_device_extension()),
{
    let names = split_extension_names(list);
    let ghost all = deep_view(names@);
    let mut kept: Vec<Vec<u8>> = Vec::new();
    proof {
        assert(all.take(0) =~= Seq::<Seq<u8>>::empty());
        assert(all.take(0).filter(kept_device_extension()) =~= Seq::<Seq<u8>>::empty()) by {
            reveal(Seq::filter);
        }
    }
    let mut i: usize = 0;
    while i < names.len()
        invariant
            all == deep_view(names@),
            i <= names@.len(),
            deep_view(kept@) == all.take(i as int).filter(kept_device_extension()),
        decreases names@.len() - i,
    {
        proof {
            let x = all[i as int];
            assert(all.take(i as int + 1) =~= all.take(i as int) + seq![x]);
            Seq::filter_distributes_over_add(all.take(i as int), seq![x], kept_device_extension());
            reveal_with_fuel(Seq::filter, 2);
            assert(seq![x].drop_last() =~= Seq::<Seq<u8>>::empty());
        }
        let ghost before = kept@;
        if !is_debug_marker(&names[i]) {
            let name = names[i].clone();
            proof {
                assert(name@ =~= all[i as int]);
            }
            kept.push(name);
            proof {
                assert(deep_view(kept@) =~= deep_view(before).push(all[i as int]));
            }
        }
        i += 1;
    }
    proof {
        assert(all.take(names@.len() as int) =~= all);
    }
    kept
}

} // verus!
