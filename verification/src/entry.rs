//! The plugin factory that the entry point offers the host: two plugins, listed by
//! position and created by identifier.
use vstd::prelude::*;
use vstd::utf8::{encode_utf8_decode_utf8};
use clack_plugin::plugin::PluginDescriptor;
use crate::descriptor::descriptor_texts;
use crate::heater::Heater;
use crate::vice::Vice;

verus! {

/// A plugin the factory offers: its identifier and its descriptor.
pub struct FactoryEntry {
    pub id: &'static str,
    pub descriptor: PluginDescriptor,
}

/// The factory of the two plugins the entry point offers.
pub struct PluginFactory {
    pub first: FactoryEntry,
    pub second: FactoryEntry,
}

/// Whether two texts are equal, compared by their UTF-8 bytes.
pub fn same_text(a: &str, b: &str) -> (r: bool)
    ensures
        r == (a@ == b@),
{
    broadcast use encode_utf8_decode_utf8;

    let x = a.as_bytes();
    let y = b.as_bytes();
    if x.len() != y.len() {
        return false;
    }
    let mut i: usize = 0;
    while i < x.len()
        invariant
            i <= x.len() == y.len(),
            x@ == vstd::utf8::encode_utf8(a@),
            y@ == vstd::utf8::encode_utf8(b@),
            forall|k: int| 0 <= k < i ==> x@[k] == y@[k],
        decreases x.len() - i,
    {
        if x[i] != y[i] {
            return false;
        }
        i = i + 1;
    }
    proof {
        assert(x@ =~= y@);
        assert(a@ == vstd::utf8::decode_utf8(vstd::utf8::encode_utf8(a@)));
        assert(b@ == vstd::utf8::decode_utf8(vstd::utf8::encode_utf8(b@)));
    }
    true
}

/// The position of the plugin with a given identifier: the first entry whose
/// identifier it is.
pub open spec fn plugin_position(f: &PluginFactory, id: Seq<char>) -> Option<u32> {
    if id == f.first.id@ {
        Some(0)
    } else if id == f.second.id@ {
        Some(1)
    } else {
        None
    }
}

impl PluginFactory {
    /// The number of plugins offered.
    pub fn plugin_count(&self) -> (r: u32)
        ensures
            r == 2,
    {
        2
    }

    /// The descriptor of the plugin at a position; none past the last plugin.
    pub fn plugin_descriptor(&self, index: u32) -> (r: Option<&PluginDescriptor>)
        ensures
            index == 0 ==> r == Some(&self.first.descriptor),
            index == 1 ==> r == Some(&self.second.descriptor),
            index >= 2 ==> r is None,
    {
        if index == 0 {
            Some(&self.first.descriptor)
        } else if index == 1 {
            Some(&self.second.descriptor)
        } else {
            None
        }
    }

    /// The position of the plugin the host asks to create, by identifier; `None` for
    /// an identifier the factory does not offer.
    pub fn plugin_index(&self, id: &str) -> (r: Option<u32>)
        ensures
            r == plugin_position(self, id@),
            r matches Some(i) ==> i < 2,
    {
        if same_text(id, self.first.id) {
            Some(0)
        } else if same_text(id, self.second.id) {
            Some(1)
        } else {
            None
        }
    }
}

/// An entry whose descriptor holds the entry's identifier as its id.
pub open spec fn entry_consistent(e: &FactoryEntry) -> bool {
    &&& descriptor_texts(e.descriptor).len() > 0
    &&& descriptor_texts(e.descriptor)[0] == e.id@
}

/// A factory whose entries each carry their own descriptor's id, with distinct ids.
pub open spec fn factory_consistent(f: &PluginFactory) -> bool {
    &&& entry_consistent(&f.first)
    &&& entry_consistent(&f.second)
    &&& f.first.id@ != f.second.id@
}

/// The id of the descriptor listed at a position.
pub open spec fn listed_id(f: &PluginFactory, index: u32) -> Seq<char> {
    if index == 0 {
        descriptor_texts(f.first.descriptor)[0]
    } else {
        descriptor_texts(f.second.descriptor)[0]
    }
}

/// In a consistent factory, creating by the id of the descriptor listed at any
/// position below the plugin count creates the plugin at that position, and the
/// descriptors at distinct positions have distinct ids.
pub proof fn lemma_factory_listed_ids_create(f: &PluginFactory, i: u32, j: u32)
    requires
        factory_consistent(f),
    ensures
        i < 2 ==> plugin_position(f, listed_id(f, i)) == Some(i),
        i < 2 && j < 2 && i != j ==> listed_id(f, i) != listed_id(f, j),
{
}

/// A factory of Heater and Vice, each entry holding the plugin's identifier and a
/// descriptor as the plugin builds it, is consistent.
pub proof fn lemma_heater_vice_factory_consistent(f: &PluginFactory, version: Seq<char>)
    requires
        f.first.id == Heater::ID,
        f.second.id == Vice::ID,
        descriptor_texts(f.first.descriptor) == seq![
            "com.edwloef.heater"@,
            "Heater"@,
            "edwloef"@,
            version,
        ],
        descriptor_texts(f.second.descriptor) == seq!["com.edwloef.vice"@, "Vice"@, "edwloef"@, version],
    ensures
        factory_consistent(f),
{
    reveal_strlit("com.edwloef.heater");
    reveal_strlit("com.edwloef.vice");
    assert(f.first.id@[12] != f.second.id@[12]);
}

/// Creating by identifier and listing by position agree: the identifier of the
/// plugin at a listed position creates the plugin at that position, unless an earlier
/// plugin has the same identifier.
pub proof fn lemma_factory_ids_agree(f: &PluginFactory)
    ensures
        plugin_position(f, f.first.id@) == Some(0u32),
        f.second.id@ != f.first.id@ ==> plugin_position(f, f.second.id@) == Some(1u32),
{
}

} // verus!
