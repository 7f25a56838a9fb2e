//! Fonts: the loaded font data by name, the index each font was loaded
//! under, and the fonts of each family, kept in `hashbrown` maps.

use vstd::prelude::*;
use std::sync::Arc;
use crate::text::{string_from_str, string_push_str};

verus! {

/// The two font families.
#[derive(Debug, Clone, Copy, Hash, PartialEq, Eq, Structural)]
pub enum FontFamily {
    Proportional,
    Monospace,
}

/// The bytes of a font file.
#[derive(Clone)]
pub struct FontData {
    pub data: Vec<u8>,
}

/// The text styles of the interface.
#[derive(Debug, Clone, Copy, Hash, PartialEq, Eq, Structural)]
pub enum TextStyle {
    Heading,
    Body,
    Monospace,
    Button,
    Small,
}

/// The index of each loaded font, by name.
#[verifier::external_body]
pub struct FontIndexTable {
    inner: hashbrown::HashMap<String, usize>,
}

/// The indices a table holds, by font name.
pub uninterp spec fn font_indices(t: FontIndexTable) -> Map<Seq<char>, usize>;

/// The data of each loaded font, by name.
#[verifier::external_body]
pub struct FontDataTable {
    inner: hashbrown::HashMap<String, Arc<FontData>>,
}

/// The font bytes a table holds, by font name.
pub uninterp spec fn font_blobs(t: FontDataTable) -> Map<Seq<char>, Seq<u8>>;

/// The font names of each family.
#[verifier::external_body]
pub struct FamilyTable {
    inner: hashbrown::HashMap<FontFamily, Vec<String>>,
}

/// The font names a table lists for each family.
pub uninterp spec fn font_families(t: FamilyTable) -> Map<FontFamily, Seq<Seq<char>>>;

/// No entry at all.
pub open spec fn no_indices() -> Map<Seq<char>, usize> {
    Map::empty()
}

/// No font data at all.
pub open spec fn no_blobs() -> Map<Seq<char>, Seq<u8>> {
    Map::empty()
}

/// No family at all.
pub open spec fn no_families() -> Map<FontFamily, Seq<Seq<char>>> {
    Map::empty()
}

/// `hashbrown::HashMap::new`: an empty table.
#[verifier::external_body]
fn index_table_new() -> (t: FontIndexTable)
    ensures
        font_indices(t) == no_indices(),
{
    FontIndexTable { inner: hashbrown::HashMap::new() }
}

/// `hashbrown::HashMap::insert`: the name maps to the index afterwards.
#[verifier::external_body]
fn index_table_insert(t: &mut FontIndexTable, name: String, index: usize)
    ensures
        font_indices(*final(t)) == font_indices(*old(t)).insert(name@, index),
{
    t.inner.insert(name, index);
}

/// `hashbrown::HashMap::contains_key`.
#[verifier::external_body]
fn index_table_contains(t: &FontIndexTable, name: &str) -> (r: bool)
    ensures
        r == font_indices(*t).contains_key(name@),
{
    t.inner.contains_key(name)
}

/// `hashbrown::HashMap::new`: an empty table.
#[verifier::external_body]
fn data_table_new() -> (t: FontDataTable)
    ensures
        font_blobs(t) == no_blobs(),
{
    FontDataTable { inner: hashbrown::HashMap::new() }
}

/// `hashbrown::HashMap::len`: the number of names in the table.
#[verifier::external_body]
fn data_table_len(t: &FontDataTable) -> (n: usize)
    ensures
        n == font_blobs(*t).len(),
{
    t.inner.len()
}

/// `hashbrown::HashMap::insert`: the name maps to the bytes afterwards,
/// shared behind an `Arc`.
#[verifier::external_body]
fn data_table_insert(t: &mut FontDataTable, name: String, data: Vec<u8>)
    ensures
        font_blobs(*final(t)) == font_blobs(*old(t)).insert(name@, data@),
{
    t.inner.insert(name, Arc::new(FontData { data }));
}

/// `hashbrown::HashMap::new`: an empty table.
#[verifier::external_body]
fn family_table_new() -> (t: FamilyTable)
    ensures
        font_families(t) == no_families(),
{
    FamilyTable { inner: hashbrown::HashMap::new() }
}

/// `hashbrown::HashMap::insert`: the family lists the names afterwards.
#[verifier::external_body]
fn family_table_insert(t: &mut FamilyTable, family: FontFamily, names: Vec<String>)
    ensures
        font_families(*final(t)) == font_families(*old(t)).insert(family, names@.map_values(|n: String| n@)),
{
    t.inner.insert(family, names);
}

/// `hashbrown::HashMap::get`, copied out.
#[verifier::external_body]
fn family_table_get(t: &FamilyTable, family: FontFamily) -> (r: Option<Vec<String>>)
    ensures
        match r {
            Some(v) => font_families(*t).contains_key(family) && v@.map_values(|n: String| n@)
                == font_families(*t)[family],
            None => !font_families(*t).contains_key(family),
        },
{
    t.inner.get(&family).cloned()
}

/// The loaded font data and the families built from it.
pub struct FontDefinitions {
    pub font_data: FontDataTable,
    pub families: FamilyTable,
}

impl Default for FontDefinitions {
    fn default() -> (d: Self)
        ensures
            font_blobs(d.font_data) == no_blobs(),
            font_families(d.families) == no_families(),
    {
        FontDefinitions { font_data: data_table_new(), families: family_table_new() }
    }
}

/// The fonts as the contracts see them.
pub struct FontView {
    /// The index each font was loaded under, by name.
    pub fonts: Map<Seq<char>, usize>,
    /// The bytes of each font, by name.
    pub data: Map<Seq<char>, Seq<u8>>,
    /// The font names of each family.
    pub families: Map<FontFamily, Seq<Seq<char>>>,
}

/// Loads fonts and sorts them into families. Sizes of interface elements
/// are not kept here.
pub struct FontManager {
    fonts: FontIndexTable,
    font_definitions: FontDefinitions,
}

impl View for FontManager {
    type V = FontView;

    closed spec fn view(&self) -> FontView {
        FontView {
            fonts: font_indices(self.fonts),
            data: font_blobs(self.font_definitions.font_data),
            families: font_families(self.font_definitions.families),
        }
    }
}

/// The fonts after `name` is loaded with `bytes`: its index is the number
/// of fonts loaded before it.
pub open spec fn font_loaded(v: FontView, name: Seq<char>, bytes: Seq<u8>) -> FontView {
    FontView {
        fonts: v.fonts.insert(name, v.data.len() as usize),
        data: v.data.insert(name, bytes),
        families: v.families,
    }
}

/// The families after `name` joins `family`, at the end of its list.
pub open spec fn family_joined(
    v: Map<FontFamily, Seq<Seq<char>>>,
    family: FontFamily,
    name: Seq<char>,
) -> Map<FontFamily, Seq<Seq<char>>> {
    let before = if v.contains_key(family) { v[family] } else { Seq::empty() };
    v.insert(family, before.push(name))
}

/// The default families: one font each.
pub open spec fn default_families(v: Map<FontFamily, Seq<Seq<char>>>) -> Map<FontFamily, Seq<Seq<char>>> {
    v.insert(FontFamily::Proportional, seq!["default-prop"@]).insert(FontFamily::Monospace, seq!["default-mono"@])
}

/// A one-name list.
fn single_name(name: &str) -> (v: Vec<String>)
    ensures
        v@.map_values(|n: String| n@) == seq![name@],
{
    let mut v: Vec<String> = Vec::new();
    v.push(string_from_str(name));
    assert(v@.map_values(|n: String| n@) =~= seq![name@]);
    v
}

impl FontManager {
    /// A manager with no font and no family.
    pub fn new() -> (m: Self)
        ensures
            m@.fonts == no_indices(),
            m@.data == no_blobs(),
            m@.families == no_families(),
    {
        FontManager { fonts: index_table_new(), font_definitions: FontDefinitions::default() }
    }

    /// Load a font: its bytes are kept under its name, with the number of
    /// fonts loaded before it as its index.
    pub fn load_font(&mut self, name: &str, font_data: &[u8]) -> (r: Result<(), String>)
        ensures
            r is Ok,
            final(self)@ == font_loaded(old(self)@, name@, font_data@),
    {
        let font_index = data_table_len(&self.font_definitions.font_data);
        data_table_insert(&mut self.font_definitions.font_data, string_from_str(name), vstd::slice::slice_to_vec(font_data));
        index_table_insert(&mut self.fonts, string_from_str(name), font_index);
        Ok(())
    }

    /// Add a loaded font to the end of a family's list; refused, with the
    /// message "Font '<name>' not loaded", for a font not loaded.
    pub fn set_font_family(&mut self, family: FontFamily, font_name: &str) -> (r: Result<(), String>)
        ensures
            old(self)@.fonts.contains_key(font_name@) <==> r is Ok,
            r matches Err(m) ==> m@ == "Font '"@ + font_name@ + "' not loaded"@ && final(self)@ == old(self)@,
            r is Ok ==> final(self)@ == (FontView {
                families: family_joined(old(self)@.families, family, font_name@),
                ..old(self)@
            }),
    {
        if !index_table_contains(&self.fonts, font_name) {
            let mut m = string_from_str("Font '");
            string_push_str(&mut m, font_name);
            string_push_str(&mut m, "' not loaded");
            return Err(m);
        }
        let mut names = match family_table_get(&self.font_definitions.families, family) {
            Some(v) => v,
            None => {
                let v: Vec<String> = Vec::new();
                assert(v@.map_values(|n: String| n@) =~= Seq::<Seq<char>>::empty());
                v
            },
        };
        let ghost before = names@.map_values(|n: String| n@);
        names.push(string_from_str(font_name));
        assert(names@.map_values(|n: String| n@) =~= before.push(font_name@));
        family_table_insert(&mut self.font_definitions.families, family, names);
        assert(self@.families =~= family_joined(old(self)@.families, family, font_name@));
        Ok(())
    }

    /// Set the default families: "default-prop" for proportional text,
    /// "default-mono" for monospace, each alone in its list.
    pub fn setup_default_fonts(&mut self) -> (r: Result<(), String>)
        ensures
            r is Ok,
            final(self)@ == (FontView { families: default_families(old(self)@.families), ..old(self)@ }),
    {
        family_table_insert(&mut self.font_definitions.families, FontFamily::Proportional, single_name("default-prop"));
        family_table_insert(&mut self.font_definitions.families, FontFamily::Monospace, single_name("default-mono"));
        Ok(())
    }

    /// Load a font from memory: as [`FontManager::load_font`].
    pub fn load_font_from_memory(&mut self, name: &str, data: &[u8]) -> (r: Result<(), String>)
        ensures
            r is Ok,
            final(self)@ == font_loaded(old(self)@, name@, data@),
    {
        self.load_font(name, data)
    }
}

impl Default for FontManager {
    fn default() -> (m: Self)
        ensures
            m@.fonts == no_indices(),
            m@.data == no_blobs(),
            m@.families == no_families(),
    {
        Self::new()
    }
}

/// A font that has been loaded can join a family: after `load_font` of a
/// name, `set_font_family` with that name is not refused, and the font's
/// index is the number of fonts loaded before it.
pub proof fn lemma_loaded_font_can_join_family(v: FontView, name: Seq<char>, bytes: Seq<u8>)
    ensures
        font_loaded(v, name, bytes).fonts.contains_key(name),
        font_loaded(v, name, bytes).fonts[name] == v.data.len() as usize,
        font_loaded(v, name, bytes).data[name] == bytes,
{
}

} // verus!
