use vstd::prelude::*;

verus! {

/// The identifier of a registered font: its position in the registry.
pub type FontID = usize;

/// The fonts registered with a drawer, in order of registration.
pub struct Fonts<T> {
    fonts: Vec<T>,
}

impl<T> View for Fonts<T> {
    type V = Seq<T>;

    closed spec fn view(&self) -> Seq<T> {
        self.fonts@
    }
}

impl<T> Fonts<T> {
    /// A registry without fonts.
    pub fn new() -> (r: Self)
        ensures
            r@ == Seq::<T>::empty(),
    {
        Fonts { fonts: Vec::new() }
    }

    /// The number of registered fonts.
    pub fn len(&self) -> (r: usize)
        ensures
            r == self@.len(),
    {
        self.fonts.len()
    }

    /// Registers a font; its identifier is the number of fonts registered
    /// before it.
    pub fn add(&mut self, font: T) -> (id: FontID)
        ensures
            id == old(self)@.len(),
            final(self)@ == old(self)@.push(font),
    {
        self.fonts.push(font);
        self.fonts.len() - 1
    }

    /// The font registered under `id`, if there is one.
    pub fn get(&self, id: FontID) -> (r: Option<&T>)
        ensures
            id < self@.len() ==> r == Some(&self@[id as int]),
            id >= self@.len() ==> r is None,
    {
        if id < self.fonts.len() {
            Some(&self.fonts[id])
        } else {
            None
        }
    }
}

} // verus!
