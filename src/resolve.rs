use vstd::prelude::*;

verus! {

/// One entry of a lookup directory, as the scan sees it: the entry's file
/// name, and the canonical path that the entry resolves to, or `None` where
/// resolving it failed (a dangling or unreadable link).
#[derive(Clone, Debug, PartialEq, Eq, Hash)]
pub struct LinkEntry {
    pub name: String,
    pub target: Option<String>,
}

/// The view of an optional string.
pub open spec fn opt_view(o: Option<String>) -> Option<Seq<char>> {
    match o {
        Some(s) => Some(s@),
        None => None,
    }
}

impl View for LinkEntry {
    type V = (Seq<char>, Option<Seq<char>>);

    open spec fn view(&self) -> (Seq<char>, Option<Seq<char>>) {
        (self.name@, opt_view(self.target))
    }
}

/// The entries of a directory as plain values.
pub open spec fn entries_view(es: Seq<LinkEntry>) -> Seq<(Seq<char>, Option<Seq<char>>)> {
    es.map_values(|e: LinkEntry| e@)
}

/// Forward resolution: the target of the first entry named `name` whose
/// target could be resolved; entries that failed to resolve are passed over.
pub open spec fn forward_spec(
    name: Seq<char>,
    es: Seq<(Seq<char>, Option<Seq<char>>)>,
) -> Option<Seq<char>>
    decreases es.len(),
{
    if es.len() == 0 {
        None
    } else if es[0].0 == name && es[0].1 is Some {
        es[0].1
    } else {
        forward_spec(name, es.drop_first())
    }
}

/// The name of the first entry whose resolved target is `target`.
pub open spec fn first_named_target(
    target: Seq<char>,
    es: Seq<(Seq<char>, Option<Seq<char>>)>,
) -> Option<Seq<char>>
    decreases es.len(),
{
    if es.len() == 0 {
        None
    } else if es[0].1 == Some(target) {
        Some(es[0].0)
    } else {
        first_named_target(target, es.drop_first())
    }
}

/// Reverse resolution: nothing where the device path itself could not be
/// resolved, else the name of the first entry that resolves to it.
pub open spec fn reverse_spec(
    path: Option<Seq<char>>,
    es: Seq<(Seq<char>, Option<Seq<char>>)>,
) -> Option<Seq<char>> {
    match path {
        Some(p) => first_named_target(p, es),
        None => None,
    }
}

/// Where entry `i` is the only entry named `es[i].0` and the only entry that
/// resolves to its target `t`, forward resolution of the name gives `t` and
/// reverse resolution of `t` gives the name.
pub proof fn lemma_forward_reverse_inverse(es: Seq<(Seq<char>, Option<Seq<char>>)>, i: int)
    requires
        0 <= i < es.len(),
        es[i].1 is Some,
        forall|j: int| 0 <= j < es.len() && j != i ==> es[j].0 != es[i].0 && es[j].1 != es[i].1,
    ensures
        forward_spec(es[i].0, es) == es[i].1,
        reverse_spec(es[i].1, es) == Some(es[i].0),
    decreases i,
{
    if i > 0 {
        let rest = es.drop_first();
        assert(rest[i - 1] == es[i]);
        assert forall|j: int| 0 <= j < rest.len() && j != i - 1 implies #[trigger] rest[j].0
            != rest[i - 1].0 && rest[j].1 != rest[i - 1].1 by {
            assert(rest[j] == es[j + 1]);
        }
        lemma_forward_reverse_inverse(rest, i - 1);
        assert(es[0].0 != es[i].0);
        assert(es[0].1 != es[i].1);
    }
}

/// A name that no entry carries resolves to nothing, and neither does a
/// device path that could not be resolved itself.
pub proof fn lemma_absent(name: Seq<char>, es: Seq<(Seq<char>, Option<Seq<char>>)>)
    requires
        forall|j: int| 0 <= j < es.len() ==> es[j].0 != name,
    ensures
        forward_spec(name, es) is None,
        reverse_spec(None, es) is None,
    decreases es.len(),
{
    if es.len() > 0 {
        let rest = es.drop_first();
        assert forall|j: int| 0 <= j < rest.len() implies rest[j].0 != name by {
            assert(rest[j] == es[j + 1]);
        }
        lemma_absent(name, rest);
    }
}

/// An entry that failed to resolve changes neither lookup, wherever it
/// stands among the entries.
pub proof fn lemma_dangling_skipped(
    name: Seq<char>,
    path: Option<Seq<char>>,
    front: Seq<(Seq<char>, Option<Seq<char>>)>,
    d: (Seq<char>, Option<Seq<char>>),
    back: Seq<(Seq<char>, Option<Seq<char>>)>,
)
    requires
        d.1 is None,
    ensures
        forward_spec(name, front + seq![d] + back) == forward_spec(name, front + back),
        reverse_spec(path, front + seq![d] + back) == reverse_spec(path, front + back),
    decreases front.len(),
{
    let with = front + seq![d] + back;
    let without = front + back;
    if front.len() == 0 {
        assert(with.drop_first() =~= back);
        assert(without =~= back);
    } else {
        lemma_dangling_skipped(name, path, front.drop_first(), d, back);
        assert(with.drop_first() =~= front.drop_first() + seq![d] + back);
        assert(without.drop_first() =~= front.drop_first() + back);
        assert(with[0] == front[0]);
        assert(without[0] == front[0]);
    }
}

/// What either lookup finds comes from one entry: forward resolution gives the
/// target of an entry with the name, and reverse resolution the name of an
/// entry with the target. So where no entry name is empty, no identifier
/// found by a scan is empty.
pub proof fn lemma_found_in_entries(
    name: Seq<char>,
    path: Option<Seq<char>>,
    es: Seq<(Seq<char>, Option<Seq<char>>)>,
)
    ensures
        forward_spec(name, es) is Some ==> exists|j: int|
            0 <= j < es.len() && (#[trigger] es[j]).0 == name && es[j].1 == forward_spec(name, es),
        reverse_spec(path, es) matches Some(n) ==> exists|j: int|
            0 <= j < es.len() && (#[trigger] es[j]).0 == n && es[j].1 == path,
    decreases es.len(),
{
    if es.len() > 0 {
        let rest = es.drop_first();
        lemma_found_in_entries(name, path, rest);
        if forward_spec(name, es) is Some && !(es[0].0 == name && es[0].1 is Some) {
            let j = choose|j: int|
                0 <= j < rest.len() && (#[trigger] rest[j]).0 == name && rest[j].1 == forward_spec(
                    name,
                    rest,
                );
            assert(es[j + 1] == rest[j]);
        }
        if reverse_spec(path, es) is Some && es[0].1 != path {
            let n = reverse_spec(path, es)->0;
            let j = choose|j: int|
                0 <= j < rest.len() && (#[trigger] rest[j]).0 == n && rest[j].1 == path;
            assert(es[j + 1] == rest[j]);
        }
    }
}

/// Finds the canonical device path of the identifier `uuid` among the
/// entries of its lookup directory.
pub fn from_uuid(uuid: &str, entries: &[LinkEntry]) -> (r: Option<String>)
    ensures
        opt_view(r) == forward_spec(uuid@, entries_view(entries@)),
{
    let wanted = uuid.to_owned();
    let ghost es = entries_view(entries@);
    proof {
        assert(es.subrange(0, es.len() as int) =~= es);
    }
    let mut i: usize = 0;
    while i < entries.len()
        invariant
            0 <= i <= entries@.len(),
            es == entries_view(entries@),
            wanted@ == uuid@,
            forward_spec(uuid@, es) == forward_spec(uuid@, es.subrange(i as int, es.len() as int)),
        decreases entries@.len() - i,
    {
        let entry = &entries[i];
        proof {
            let rest = es.subrange(i as int, es.len() as int);
            assert(rest[0] == entry@);
            assert(rest.drop_first() =~= es.subrange(i + 1, es.len() as int));
        }
        if entry.name == wanted {
            match &entry.target {
                Some(t) => {
                    return Some(t.clone());
                },
                None => {},
            }
        }
        i += 1;
    }
    proof {
        assert(es.subrange(i as int, es.len() as int) =~= Seq::empty());
    }
    None
}

/// Finds the name of the entry that resolves to the device at `path`, the
/// canonical form of a device path, or `None` where resolving it failed.
pub fn find_uuid(path: &Option<String>, entries: &[LinkEntry]) -> (r: Option<String>)
    ensures
        opt_view(r) == reverse_spec(opt_view(*path), entries_view(entries@)),
{
    let target = match path {
        Some(p) => p,
        None => {
            return None;
        },
    };
    let ghost es = entries_view(entries@);
    proof {
        assert(es.subrange(0, es.len() as int) =~= es);
    }
    let mut i: usize = 0;
    while i < entries.len()
        invariant
            0 <= i <= entries@.len(),
            es == entries_view(entries@),
            *path == Some(*target),
            first_named_target(target@, es) == first_named_target(
                target@,
                es.subrange(i as int, es.len() as int),
            ),
        decreases entries@.len() - i,
    {
        let entry = &entries[i];
        proof {
            let rest = es.subrange(i as int, es.len() as int);
            assert(rest[0] == entry@);
            assert(rest.drop_first() =~= es.subrange(i + 1, es.len() as int));
        }
        match &entry.target {
            Some(t) => {
                if *t == *target {
                    return Some(entry.name.clone());
                }
            },
            None => {},
        }
        i += 1;
    }
    proof {
        assert(es.subrange(i as int, es.len() as int) =~= Seq::empty());
    }
    None
}

} // verus!
