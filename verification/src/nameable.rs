use vstd::prelude::*;

verus! {

/// Something that bears a name.
pub trait Nameable: Sized {
    /// The name borne.
    spec fn spec_name(&self) -> Seq<char>;

    /// Gives the name and hands `self` back for the next setting.
    fn name(&mut self, name: &str) -> (r: &mut Self)
        ensures
            r.spec_name() == name@,
            *final(self) == *final(r),
    ;
}

} // verus!
