use vstd::prelude::*;

verus! {

/// A global as the registry announced it: the interface it offers, the
/// version of that interface, and the numeric name by which it is bound.
pub struct GlobalEntry {
    pub name: Seq<char>,
    pub version: u32,
    pub id: u32,
}

/// A service announced by the compositor.
pub struct WaylandGlobal {
    name: String,
    version: u32,
    id: u32,
}

impl View for WaylandGlobal {
    type V = GlobalEntry;

    closed spec fn view(&self) -> GlobalEntry {
        GlobalEntry { name: self.name@, version: self.version, id: self.id }
    }
}

impl WaylandGlobal {
    pub fn name(&self) -> (name: &str)
        ensures
            name@ == self@.name,
    {
        self.name.as_str()
    }

    pub fn version(&self) -> (version: u32)
        ensures
            version == self@.version,
    {
        self.version
    }

    pub fn id(&self) -> (id: u32)
        ensures
            id == self@.id,
    {
        self.id
    }

    pub fn new(name: &str, version: u32, id: u32) -> (g: WaylandGlobal)
        ensures
            g@ == (GlobalEntry { name: name@, version, id }),
    {
        WaylandGlobal { name: name.to_owned(), version, id }
    }
}

/// All the services the compositor offers, in the order it announced them.
pub struct WaylandRegistry {
    globals: Vec<WaylandGlobal>,
}

impl View for WaylandRegistry {
    type V = Seq<GlobalEntry>;

    closed spec fn view(&self) -> Seq<GlobalEntry> {
        self.globals@.map_values(|g: WaylandGlobal| g@)
    }
}

impl WaylandRegistry {
    pub fn new() -> (r: WaylandRegistry)
        ensures
            r@ == Seq::<GlobalEntry>::empty(),
    {
        let r = WaylandRegistry { globals: Vec::new() };
        assert(r@ =~= Seq::<GlobalEntry>::empty());
        r
    }

    pub fn add_global(&mut self, global: WaylandGlobal)
        ensures
            final(self)@ == old(self)@.push(global@),
    {
        self.globals.push(global);
        assert(final(self)@ =~= old(self)@.push(global@));
    }

    pub fn get_globals(&self) -> (globals: &[WaylandGlobal])
        ensures
            globals@.len() == self@.len(),
            forall|i: int| 0 <= i < globals@.len() ==> #[trigger] globals@[i]@ == self@[i],
    {
        self.globals.as_slice()
    }
}

} // verus!
