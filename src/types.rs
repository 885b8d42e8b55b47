//! The records that travel to the registry, and the answers that come back.
use vstd::prelude::*;
use vstd::slice::slice_to_vec;

verus! {

/// A code unit as built locally: its compiled artifact, its optional UI bundle
/// and what the registry records about it.
#[derive(Clone, Debug)]
pub struct ZomeWithCode {
    pub name: String,
    pub components_bundle: Option<Vec<u8>>,
    pub wasm_code: Vec<u8>,
    /// The artifact's own content hash, as raw bytes.
    pub wasm_hash: Vec<u8>,
    /// Entry definition identifiers, ordered by their position in the unit.
    pub entry_defs: Vec<String>,
    pub required_properties: Vec<String>,
    pub required_membrane_proof: bool,
}

/// The record that publishes one code unit, once its files are stored.
#[derive(Clone, Debug)]
pub struct ZomeToPublish {
    pub name: String,
    /// Hash of the stored artifact file.
    pub wasm_file: String,
    /// Hash of the stored UI bundle file, where the unit has one.
    pub components_bundle_file: Option<String>,
    pub wasm_hash: Vec<u8>,
    pub entry_defs: Vec<String>,
    pub required_properties: Vec<String>,
    pub required_membrane_proof: bool,
}

/// One code unit of a template: its name and the hash it was published under.
#[derive(Clone, Debug)]
pub struct ZomeReference {
    pub name: String,
    pub zome_def_hash: String,
}

/// The abstract shape of a package: its name and its code units, in order.
#[derive(Clone, Debug)]
pub struct DnaTemplate {
    pub name: String,
    pub zome_defs: Vec<ZomeReference>,
}

/// The record that links a compiled, configured package to its template.
#[derive(Clone, Debug)]
pub struct PublishInstantiatedDnaInput {
    pub dna_template_hash: String,
    pub instantiated_dna_hash: String,
    pub uuid: String,
    pub properties: Vec<u8>,
}

/// A wall-clock instant: whole seconds since the Unix epoch and nanoseconds.
#[derive(Clone, Copy, Debug, PartialEq, Eq, Structural)]
pub struct Timestamp {
    pub secs: i64,
    pub nanos: u32,
}

/// The metadata record that gathers the stored chunks of one file.
#[derive(Clone, Debug)]
pub struct CreateFileMetadataInput {
    pub name: String,
    pub last_modified: Timestamp,
    pub size: usize,
    pub file_type: String,
    pub chunks_hashes: Vec<String>,
}

/// Two sequences of strings hold the same texts, in the same order.
pub open spec fn same_texts(a: Seq<String>, b: Seq<String>) -> bool {
    &&& a.len() == b.len()
    &&& forall|i: int| 0 <= i < a.len() ==> #[trigger] a[i]@ == b[i]@
}

/// A copy of a list of strings.
pub fn copy_texts(v: &Vec<String>) -> (r: Vec<String>)
    ensures
        same_texts(r@, v@),
{
    let mut r: Vec<String> = Vec::new();
    let mut i: usize = 0;
    while i < v.len()
        invariant
            i <= v@.len(),
            r@.len() == i,
            forall|j: int| 0 <= j < i ==> #[trigger] r@[j]@ == v@[j]@,
        decreases v@.len() - i,
    {
        r.push(v[i].clone());
        i = i + 1;
    }
    r
}

/// A copy of a byte buffer.
pub fn copy_bytes(v: &Vec<u8>) -> (r: Vec<u8>)
    ensures
        r@ == v@,
{
    slice_to_vec(v.as_slice())
}

impl ZomeToPublish {
    /// This record publishes `unit`, whose artifact was stored as `wasm_file`
    /// and whose bundle, if any, as `bundle_file`.
    pub open spec fn describes(
        self,
        unit: ZomeWithCode,
        wasm_file: Seq<char>,
        bundle_file: Option<Seq<char>>,
    ) -> bool {
        &&& self.name@ == unit.name@
        &&& self.wasm_file@ == wasm_file
        &&& match (self.components_bundle_file, bundle_file) {
            (Some(f), Some(g)) => f@ == g,
            (None, None) => true,
            _ => false,
        }
        &&& self.wasm_hash@ == unit.wasm_hash@
        &&& same_texts(self.entry_defs@, unit.entry_defs@)
        &&& same_texts(self.required_properties@, unit.required_properties@)
        &&& self.required_membrane_proof == unit.required_membrane_proof
    }

    /// The record that publishes `unit` with the hashes of its stored files.
    pub fn for_unit(unit: &ZomeWithCode, wasm_file: &String, bundle_file: &Option<String>) -> (r:
        ZomeToPublish)
        ensures
            r.describes(
                *unit,
                wasm_file@,
                match bundle_file {
                    Some(f) => Some(f@),
                    None => None,
                },
            ),
    {
        let components_bundle_file = match bundle_file {
            Some(f) => Some(f.clone()),
            None => None,
        };
        ZomeToPublish {
            name: unit.name.clone(),
            wasm_file: wasm_file.clone(),
            components_bundle_file,
            wasm_hash: copy_bytes(&unit.wasm_hash),
            entry_defs: copy_texts(&unit.entry_defs),
            required_properties: copy_texts(&unit.required_properties),
            required_membrane_proof: unit.required_membrane_proof,
        }
    }
}

impl DnaTemplate {
    /// This template is named `name` and references, in order, the unit names
    /// `names` paired with the hashes `hashes`.
    pub open spec fn references(self, name: Seq<char>, names: Seq<Seq<char>>, hashes: Seq<Seq<char>>) -> bool {
        &&& self.name@ == name
        &&& self.zome_defs@.len() == names.len()
        &&& forall|i: int|
            0 <= i < names.len() ==> {
                &&& (#[trigger] self.zome_defs@[i]).name@ == names[i]
                &&& self.zome_defs@[i].zome_def_hash@ == hashes[i]
            }
    }

    /// The template named `name` whose references pair each unit's name with
    /// the hash at the same position of `hashes`.
    pub fn from_units(name: &String, units: &Vec<ZomeWithCode>, hashes: &Vec<String>) -> (r: DnaTemplate)
        requires
            units@.len() == hashes@.len(),
        ensures
            r.references(name@, unit_names(units@), texts(hashes@)),
    {
        let mut zome_defs: Vec<ZomeReference> = Vec::new();
        let mut i: usize = 0;
        while i < units.len()
            invariant
                units@.len() == hashes@.len(),
                i <= units@.len(),
                zome_defs@.len() == i,
                forall|j: int|
                    0 <= j < i ==> {
                        &&& (#[trigger] zome_defs@[j]).name@ == units@[j].name@
                        &&& zome_defs@[j].zome_def_hash@ == hashes@[j]@
                    },
            decreases units@.len() - i,
        {
            zome_defs.push(ZomeReference { name: units[i].name.clone(), zome_def_hash: hashes[i].clone() });
            i = i + 1;
        }
        DnaTemplate { name: name.clone(), zome_defs }
    }
}

/// The names of `units`, in order.
pub open spec fn unit_names(units: Seq<ZomeWithCode>) -> Seq<Seq<char>> {
    units.map_values(|u: ZomeWithCode| u.name@)
}

/// The texts of `v`, in order.
pub open spec fn texts(v: Seq<String>) -> Seq<Seq<char>> {
    v.map_values(|s: String| s@)
}

} // verus!
