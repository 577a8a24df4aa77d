use vstd::prelude::*;

verus! {

/// Values that can be copied, with what the copy holds stated: its contents,
/// every field as a plain value, are those of the original.
pub trait Duplicate: Sized {
    type Contents;

    /// What the value holds, every field as a plain value.
    spec fn contents(&self) -> Self::Contents;

    /// A copy with the same contents.
    fn duplicate(&self) -> (r: Self)
        ensures
            r.contents() == self.contents(),
    ;
}

impl Duplicate for String {
    type Contents = Seq<char>;

    open spec fn contents(&self) -> Seq<char> {
        self@
    }

    fn duplicate(&self) -> (r: String) {
        self.clone()
    }
}

impl<T: Duplicate> Duplicate for Vec<T> {
    type Contents = Seq<T::Contents>;

    open spec fn contents(&self) -> Seq<T::Contents> {
        self@.map_values(|x: T| x.contents())
    }

    fn duplicate(&self) -> (r: Vec<T>) {
        let mut r: Vec<T> = Vec::new();
        let mut i: usize = 0;
        proof {
            assert(r@.map_values(|x: T| x.contents()) =~= self@.take(0).map_values(|x: T| x.contents()));
        }
        while i < self.len()
            invariant
                i <= self@.len(),
                r@.map_values(|x: T| x.contents()) == self@.take(i as int).map_values(|x: T| x.contents()),
            decreases self@.len() - i,
        {
            let d = self[i].duplicate();
            let ghost before = r@;
            let ghost dc = d.contents();
            r.push(d);
            proof {
                assert(self@.take(i + 1) =~= self@.take(i as int).push(self@[i as int]));
                assert(r@.map_values(|x: T| x.contents()) =~= before.map_values(|x: T| x.contents()).push(dc));
                assert(r@.map_values(|x: T| x.contents()) =~= self@.take(i + 1).map_values(|x: T| x.contents()));
            }
            i = i + 1;
        }
        proof {
            assert(self@.take(self@.len() as int) =~= self@);
        }
        r
    }
}

/// An optional text, copied.
pub fn duplicate_text_option(o: &Option<String>) -> (r: Option<String>)
    ensures
        r == *o,
{
    match o {
        Some(s) => Some(s.clone()),
        None => None,
    }
}

} // verus!
