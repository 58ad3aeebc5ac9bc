//! The command registry: a closed set of commands, each registered once under
//! a unique name, and frozen before any event is dispatched.

use vstd::prelude::*;

verus! {

/// How an event invoked a command.
#[derive(Clone, Copy, Debug, PartialEq, Eq, Structural)]
pub enum InvocationKind {
    Slash,
    Prefix,
}

/// The non-empty set of invocation kinds a command accepts.
#[derive(Clone, Copy, Debug, PartialEq, Eq, Structural)]
pub enum InvocationKinds {
    SlashOnly,
    PrefixOnly,
    Both,
}

impl InvocationKinds {
    pub open spec fn spec_allows(self, kind: InvocationKind) -> bool {
        match self {
            InvocationKinds::SlashOnly => kind == InvocationKind::Slash,
            InvocationKinds::PrefixOnly => kind == InvocationKind::Prefix,
            InvocationKinds::Both => true,
        }
    }

    /// Whether `kind` is one of the accepted kinds.
    pub fn allows(&self, kind: InvocationKind) -> (r: bool)
        ensures
            r == self.spec_allows(kind),
    {
        match self {
            InvocationKinds::SlashOnly => kind == InvocationKind::Slash,
            InvocationKinds::PrefixOnly => kind == InvocationKind::Prefix,
            InvocationKinds::Both => true,
        }
    }
}

/// The handler a command runs: the command set is closed.
#[derive(Clone, Copy, Debug, PartialEq, Eq, Structural)]
pub enum Command {
    Age,
    Help,
    Fishproof,
}

/// A registered command: its name, the kinds that may invoke it, its handler.
#[derive(Clone, Debug, PartialEq, Eq)]
pub struct CommandDescriptor {
    pub name: String,
    pub kinds: InvocationKinds,
    pub command: Command,
}

pub struct DescriptorView {
    pub name: Seq<char>,
    pub kinds: InvocationKinds,
    pub command: Command,
}

impl View for CommandDescriptor {
    type V = DescriptorView;

    open spec fn view(&self) -> DescriptorView {
        DescriptorView { name: self.name@, kinds: self.kinds, command: self.command }
    }
}

/// No two descriptors share a name.
pub open spec fn names_distinct(ds: Seq<DescriptorView>) -> bool {
    forall|i: int, j: int|
        0 <= i < ds.len() && 0 <= j < ds.len() && i != j ==> #[trigger] ds[i].name != #[trigger] ds[j].name
}

/// Some descriptor is registered under `name`.
pub open spec fn has_name(ds: Seq<DescriptorView>, name: Seq<char>) -> bool {
    exists|i: int| 0 <= i < ds.len() && #[trigger] ds[i].name == name
}

/// The descriptor at `i` answers to `name` when invoked as `kind`.
pub open spec fn answers(ds: Seq<DescriptorView>, i: int, name: Seq<char>, kind: InvocationKind) -> bool {
    0 <= i < ds.len() && ds[i].name == name && ds[i].kinds.spec_allows(kind)
}

/// The command that an invocation of `name` as `kind` runs, if any: the one
/// registered under exactly that name, provided it accepts that kind.
pub open spec fn resolve(ds: Seq<DescriptorView>, name: Seq<char>, kind: InvocationKind) -> Option<Command> {
    if exists|i: int| answers(ds, i, name, kind) {
        Some(ds[choose|i: int| answers(ds, i, name, kind)].command)
    } else {
        None
    }
}

/// Why a registration was refused.
#[derive(Clone, Debug, PartialEq, Eq)]
pub enum RegistryError {
    /// A command of this name is registered already.
    DuplicateName { name: String },
}

/// The ordered set of registered commands. Names are unique: a second
/// registration under a taken name is refused.
pub struct Registry {
    descriptors: Vec<CommandDescriptor>,
}

impl View for Registry {
    type V = Seq<DescriptorView>;

    closed spec fn view(&self) -> Seq<DescriptorView> {
        self.descriptors@.map_values(|d: CommandDescriptor| d@)
    }
}

impl Registry {
    #[verifier::type_invariant]
    spec fn inv(&self) -> bool {
        names_distinct(self@)
    }

    /// An empty registry.
    pub fn new() -> (r: Registry)
        ensures
            r@ == Seq::<DescriptorView>::empty(),
            names_distinct(r@),
    {
        let r = Registry { descriptors: Vec::new() };
        assert(r@ =~= Seq::<DescriptorView>::empty());
        r
    }

    /// Appends `d`, unless its name is taken, in which case nothing changes.
    pub fn register(&mut self, d: CommandDescriptor) -> (r: Result<(), RegistryError>)
        ensures
            r is Ok <==> !has_name(old(self)@, d.name@),
            r is Ok ==> final(self)@ == old(self)@.push(d@),
            r matches Err(RegistryError::DuplicateName { name }) ==> name@ == d.name@ && final(self)@
                == old(self)@,
            names_distinct(final(self)@),
    {
        proof {
            use_type_invariant(&*self);
        }
        let mut i: usize = 0;
        while i < self.descriptors.len()
            invariant
                i <= self.descriptors.len(),
                self@ == old(self)@,
                names_distinct(self@),
                forall|j: int| 0 <= j < i ==> (#[trigger] self@[j]).name != d.name@,
            decreases self.descriptors.len() - i,
        {
            if self.descriptors[i].name == d.name {
                assert(self@[i as int].name == d.name@);
                return Err(RegistryError::DuplicateName { name: d.name });
            }
            i = i + 1;
        }
        let ghost before = self@;
        let mut ds: Vec<CommandDescriptor> = Vec::new();
        std::mem::swap(&mut ds, &mut self.descriptors);
        ds.push(d);
        assert(ds@.map_values(|d: CommandDescriptor| d@) =~= before.push(d@));
        assert(names_distinct(before.push(d@))) by {
            assert(forall|j: int| 0 <= j < before.len() ==> (#[trigger] before.push(d@)[j]) == before[j]);
        }
        self.descriptors = ds;
        Ok(())
    }

    /// The registered descriptors, in order of registration; no two of them
    /// share a name, whatever sequence of registrations built the registry.
    pub fn all(&self) -> (r: &Vec<CommandDescriptor>)
        ensures
            r@.map_values(|d: CommandDescriptor| d@) == self@,
            names_distinct(self@),
    {
        proof {
            use_type_invariant(self);
        }
        &self.descriptors
    }

    /// Exact lookup: the command registered under `name` if it accepts `kind`.
    pub fn lookup(&self, name: &String, kind: InvocationKind) -> (r: Option<Command>)
        ensures
            r == resolve(self@, name@, kind),
    {
        proof {
            use_type_invariant(self);
        }
        let mut i: usize = 0;
        while i < self.descriptors.len()
            invariant
                i <= self.descriptors.len(),
                names_distinct(self@),
                forall|j: int| 0 <= j < i ==> (#[trigger] self@[j]).name != name@,
            decreases self.descriptors.len() - i,
        {
            if self.descriptors[i].name == *name {
                assert(self@[i as int].name == name@);
                if self.descriptors[i].kinds.allows(kind) {
                    assert(answers(self@, i as int, name@, kind));
                    assert(resolve(self@, name@, kind) == Some(self@[i as int].command)) by {
                        let c = choose|k: int| answers(self@, k, name@, kind);
                        assert(self@[c].name == self@[i as int].name);
                    }
                    return Some(self.descriptors[i].command);
                } else {
                    assert(forall|k: int| !answers(self@, k, name@, kind));
                    return None;
                }
            }
            i = i + 1;
        }
        None
    }
}

} // verus!
