use vstd::prelude::*;
use crate::exception::{ErrorKind, Exception};

verus! {

/// One fragment of a call argument: verbatim text or a variable's name.
#[derive(Debug, Clone)]
pub enum Literal {
    Text(String),
    Variable(String),
}

/// The binding that the last assignment to `name` left in `entries`.
pub open spec fn lookup(entries: Seq<(Seq<char>, Seq<char>)>, name: Seq<char>) -> Option<Seq<char>>
    decreases entries.len(),
{
    if entries.len() == 0 {
        None
    } else if entries.last().0 == name {
        Some(entries.last().1)
    } else {
        lookup(entries.drop_last(), name)
    }
}

/// The variable environment: each name has at most one current value.
#[derive(Debug, Clone)]
pub struct Variables {
    entries: Vec<(String, String)>,
}

impl Variables {
    pub closed spec fn bindings(&self) -> Seq<(Seq<char>, Seq<char>)> {
        self.entries@.map_values(|e: (String, String)| (e.0@, e.1@))
    }

    /// The current value of each defined variable.
    pub open spec fn view(&self) -> Map<Seq<char>, Seq<char>> {
        Map::new(
            |k: Seq<char>| lookup(self.bindings(), k) is Some,
            |k: Seq<char>| lookup(self.bindings(), k).unwrap(),
        )
    }

    pub fn new() -> (r: Variables)
        ensures
            r@ == Map::<Seq<char>, Seq<char>>::empty(),
    {
        let r = Variables { entries: Vec::new() };
        assert(r@ =~= Map::<Seq<char>, Seq<char>>::empty());
        r
    }

    /// Assigns `value` to `name`, replacing any earlier value.
    pub fn set(&mut self, name: String, value: String)
        ensures
            final(self)@ == old(self)@.insert(name@, value@),
    {
        self.entries.push((name, value));
        proof {
            let b = self.bindings();
            assert(b.drop_last() =~= old(self).bindings());
            assert(self@ =~= old(self)@.insert(name@, value@));
        }
    }

    /// The value of `name`, if it is defined.
    pub fn get(&self, name: &String) -> (r: Option<String>)
        ensures
            r is Some <==> self@.contains_key(name@),
            r is Some ==> r.unwrap()@ == self@[name@],
    {
        let ghost b = self.bindings();
        let mut i: usize = self.entries.len();
        proof {
            assert(b.take(b.len() as int) =~= b);
        }
        while i > 0
            invariant
                i <= self.entries.len(),
                b == self.bindings(),
                lookup(b.take(i as int), name@) == lookup(b, name@),
            decreases i,
        {
            proof {
                assert(b.take(i as int).drop_last() =~= b.take(i - 1));
            }
            if self.entries[i - 1].0 == *name {
                return Some(self.entries[i - 1].1.clone());
            }
            i -= 1;
        }
        proof {
            assert(b.take(0) =~= Seq::<(Seq<char>, Seq<char>)>::empty());
        }
        None
    }
}

/// What a fragment stands for in `vars`, or `None` for an undefined variable.
pub open spec fn fragment_value(vars: Map<Seq<char>, Seq<char>>, l: Literal) -> Option<Seq<char>> {
    match l {
        Literal::Text(t) => Some(t@),
        Literal::Variable(n) => if vars.contains_key(n@) {
            Some(vars[n@])
        } else {
            None
        },
    }
}

/// The concatenation of the values of `frags`, if every fragment has one.
pub open spec fn resolved(vars: Map<Seq<char>, Seq<char>>, frags: Seq<Literal>) -> Option<Seq<char>>
    decreases frags.len(),
{
    if frags.len() == 0 {
        Some(Seq::empty())
    } else {
        match (resolved(vars, frags.drop_last()), fragment_value(vars, frags.last())) {
            (Some(a), Some(b)) => Some(a + b),
            _ => None,
        }
    }
}

/// The first undefined variable of `frags` stands at `i` and is named `name`.
pub open spec fn first_undefined_at(
    vars: Map<Seq<char>, Seq<char>>,
    frags: Seq<Literal>,
    i: int,
    name: Seq<char>,
) -> bool {
    &&& 0 <= i < frags.len()
    &&& resolved(vars, frags.take(i)) is Some
    &&& frags[i] matches Literal::Variable(n) && n@ == name
    &&& !vars.contains_key(name)
}

proof fn lemma_resolved_prefix_fails(vars: Map<Seq<char>, Seq<char>>, frags: Seq<Literal>, i: int)
    requires
        0 <= i <= frags.len(),
        resolved(vars, frags.take(i)) is None,
    ensures
        resolved(vars, frags) is None,
    decreases frags.len() - i,
{
    if i < frags.len() {
        assert(frags.take(i + 1).drop_last() =~= frags.take(i));
        lemma_resolved_prefix_fails(vars, frags, i + 1);
    } else {
        assert(frags.take(i) =~= frags);
    }
}

/// Resolves one argument: its fragments' values, concatenated in order.
pub fn resolve_argument(vars: &Variables, frags: &Vec<Literal>) -> (r: Result<String, Exception>)
    ensures
        r is Ok <==> resolved(vars@, frags@) is Some,
        r matches Ok(s) ==> s@ == resolved(vars@, frags@).unwrap(),
        r matches Err(e) ==> e.kind == ErrorKind::UndefinedVariable
            && exists|i: int| first_undefined_at(vars@, frags@, i, e.message@),
{
    let mut out = String::new();
    let mut i: usize = 0;
    while i < frags.len()
        invariant
            i <= frags.len(),
            resolved(vars@, frags@.take(i as int)) == Some(out@),
        decreases frags.len() - i,
    {
        proof {
            assert(frags@.take(i + 1).drop_last() =~= frags@.take(i as int));
        }
        match &frags[i] {
            Literal::Text(t) => {
                out.append(t.as_str());
            },
            Literal::Variable(n) => {
                match vars.get(n) {
                    Some(v) => {
                        out.append(v.as_str());
                    },
                    None => {
                        proof {
                            assert(first_undefined_at(vars@, frags@, i as int, n@));
                            lemma_resolved_prefix_fails(vars@, frags@, i + 1);
                        }
                        return Err(Exception::new(ErrorKind::UndefinedVariable, n.clone()));
                    },
                }
            },
        }
        i += 1;
    }
    proof {
        assert(frags@.take(i as int) =~= frags@);
    }
    Ok(out)
}

} // verus!
