use vstd::prelude::*;

verus! {

/// A simulated object that carries a name and a numeric id.
pub trait Entity {
    /// The object's name.
    spec fn name_view(&self) -> Seq<char>;

    /// The object's id.
    spec fn id_view(&self) -> u32;

    fn get_name(&self) -> (r: String)
        ensures
            r@ == self.name_view(),
    ;

    fn get_id(&self) -> (r: u32)
        ensures
            r == self.id_view(),
    ;
}

} // verus!
