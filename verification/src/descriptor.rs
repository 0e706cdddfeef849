//! What a caller requires of the device it is given.

use vstd::prelude::*;
use crate::device::DeviceClass;
use crate::flags::{MatchPolicy, QueueFlags};

verus! {

/// Which device classes a caller accepts.
#[derive(Clone, Copy, Debug, PartialEq, Eq, Structural)]
pub enum ClassRequirement {
    Any,
    Only(DeviceClass),
}

/// The names held by a list of strings, as sequences of characters.
pub open spec fn names_of(strings: Seq<String>) -> Seq<Seq<char>> {
    strings.map_values(|s: String| s@)
}

/// The distinct items of `items` in the order of their first occurrence.
pub open spec fn first_occurrences<T>(items: Seq<T>) -> Seq<T>
    decreases items.len(),
{
    if items.len() == 0 {
        items
    } else {
        let earlier = first_occurrences(items.drop_last());
        if earlier.contains(items.last()) {
            earlier
        } else {
            earlier.push(items.last())
        }
    }
}

/// `first_occurrences` yields an ordered set: nothing occurs twice in it,
/// and it holds exactly the items of its argument.
pub proof fn lemma_first_occurrences<T>(items: Seq<T>)
    ensures
        first_occurrences(items).no_duplicates(),
        first_occurrences(items).len() <= items.len(),
        forall|x: T| first_occurrences(items).contains(x) <==> items.contains(x),
    decreases items.len(),
{
    if items.len() > 0 {
        let front = items.drop_last();
        let last = items.last();
        let earlier = first_occurrences(front);
        lemma_first_occurrences(front);
        assert(items == front.push(last));
        assert forall|x: T| first_occurrences(items).contains(x) <==> items.contains(x) by {
            vstd::seq_lib::lemma_seq_contains_after_push(front, last, x);
            vstd::seq_lib::lemma_seq_contains_after_push(earlier, last, x);
        }
    }
}

/// The requirements a caller states for device selection. A descriptor does
/// not change once it is made.
#[derive(Debug, PartialEq, Eq)]
pub struct CapabilityDescriptor {
    required_flags: QueueFlags,
    required_class: ClassRequirement,
    extensions: Vec<String>,
    match_policy: MatchPolicy,
}

impl CapabilityDescriptor {
    /// The queue capabilities asked for.
    pub closed spec fn flags(&self) -> QueueFlags {
        self.required_flags
    }

    /// The device class asked for.
    pub closed spec fn class(&self) -> ClassRequirement {
        self.required_class
    }

    /// The extension names asked for, in order.
    pub closed spec fn names(&self) -> Seq<Seq<char>> {
        names_of(self.extensions@)
    }

    /// How queue flags are held against a capability.
    pub closed spec fn policy(&self) -> MatchPolicy {
        self.match_policy
    }

    /// No extension name is held twice.
    #[verifier::type_invariant]
    closed spec fn name_unique(&self) -> bool {
        names_of(self.extensions@).no_duplicates()
    }

    /// A descriptor with the given requirements, under the exact policy.
    /// Of extension names given more than once, the first occurrence is
    /// kept.
    pub fn new(
        required_flags: QueueFlags,
        required_class: ClassRequirement,
        extension_names: Vec<String>,
    ) -> (descriptor: CapabilityDescriptor)
        ensures
            descriptor.flags() == required_flags,
            descriptor.class() == required_class,
            descriptor.names() == first_occurrences(names_of(extension_names@)),
            descriptor.names().no_duplicates(),
            descriptor.policy() == MatchPolicy::Exact,
    {
        let ghost given = names_of(extension_names@);
        let mut kept: Vec<String> = Vec::new();
        let mut i: usize = 0;
        while i < extension_names.len()
            invariant
                i <= extension_names.len(),
                given == names_of(extension_names@),
                names_of(kept@) == first_occurrences(given.take(i as int)),
            decreases extension_names.len() - i,
        {
            let ghost before = names_of(kept@);
            let held = holds_name(&kept, &extension_names[i]);
            proof {
                assert(given.take(i + 1).drop_last() == given.take(i as int));
                assert(given.take(i + 1).last() == extension_names@[i as int]@);
            }
            if !held {
                kept.push(extension_names[i].clone());
                proof {
                    assert(names_of(kept@) == before.push(extension_names@[i as int]@));
                }
            }
            i += 1;
        }
        proof {
            assert(given.take(i as int) == given);
            lemma_first_occurrences(given);
        }
        CapabilityDescriptor {
            required_flags,
            required_class,
            extensions: kept,
            match_policy: MatchPolicy::Exact,
        }
    }

    /// The same requirements under another policy.
    pub fn with_policy(self, policy: MatchPolicy) -> (descriptor: CapabilityDescriptor)
        ensures
            descriptor.flags() == self.flags(),
            descriptor.class() == self.class(),
            descriptor.names() == self.names(),
            descriptor.policy() == policy,
    {
        proof {
            use_type_invariant(&self);
        }
        CapabilityDescriptor {
            required_flags: self.required_flags,
            required_class: self.required_class,
            extensions: self.extensions,
            match_policy: policy,
        }
    }

    /// The descriptor that asks for graphics queues on a device of any class,
    /// with no extension, under the exact policy.
    pub fn graphics() -> (descriptor: CapabilityDescriptor)
        ensures
            descriptor.flags() == QueueFlags::graphics_only(),
            descriptor.class() == ClassRequirement::Any,
            descriptor.names() == Seq::<Seq<char>>::empty(),
            descriptor.policy() == MatchPolicy::Exact,
    {
        let extensions: Vec<String> = Vec::new();
        proof {
            assert(names_of(extensions@) == Seq::<Seq<char>>::empty());
        }
        CapabilityDescriptor {
            required_flags: QueueFlags::graphics(),
            required_class: ClassRequirement::Any,
            extensions,
            match_policy: MatchPolicy::Exact,
        }
    }

    /// The queue capabilities asked for.
    pub fn required_flags(&self) -> (flags: QueueFlags)
        ensures
            flags == self.flags(),
    {
        self.required_flags
    }

    /// The device class asked for.
    pub fn required_class(&self) -> (class: ClassRequirement)
        ensures
            class == self.class(),
    {
        self.required_class
    }

    /// How queue flags are held against a capability.
    pub fn match_policy(&self) -> (policy: MatchPolicy)
        ensures
            policy == self.policy(),
    {
        self.match_policy
    }

    /// The extension names asked for, in order and without repetition.
    pub fn extensions(&self) -> (names: &Vec<String>)
        ensures
            names_of(names@) == self.names(),
            self.names().no_duplicates(),
    {
        proof {
            use_type_invariant(self);
        }
        &self.extensions
    }

    /// Whether the descriptor asks for the extension of this name.
    pub fn requires_extension(&self, name: &String) -> (yes: bool)
        ensures
            yes == self.names().contains(name@),
    {
        holds_name(&self.extensions, name)
    }
}

/// Whether one of `strings` spells `name`.
fn holds_name(strings: &Vec<String>, name: &String) -> (yes: bool)
    ensures
        yes == names_of(strings@).contains(name@),
{
    let mut j: usize = 0;
    while j < strings.len()
        invariant
            j <= strings.len(),
            forall|k: int| 0 <= k < j ==> names_of(strings@)[k] != name@,
        decreases strings.len() - j,
    {
        if strings[j] == *name {
            assert(names_of(strings@)[j as int] == name@);
            return true;
        }
        j += 1;
    }
    false
}

} // verus!
