//! Window layout: the size, place and constraints of each window, kept by
//! window id in a `hashbrown` map.

use vstd::prelude::*;
use crate::text::string_from_str;

verus! {

/// Configuration for individual windows
#[derive(Clone, Copy)]
pub struct WindowConfig {
    /// Window size (width, height)
    pub size: (u32, u32),
    /// Window position (x, y)
    pub position: (i32, i32),
    /// Whether the window can be resized
    pub resizable: bool,
    /// Whether the window can be moved
    pub movable: bool,
    /// Minimum size constraints
    pub min_size: Option<(u32, u32)>,
    /// Maximum size constraints
    pub max_size: Option<(u32, u32)>,
}

impl WindowConfig {
    /// Create a new window configuration with default values
    pub fn new(size: (u32, u32), position: (i32, i32)) -> (c: Self)
        ensures
            c == (WindowConfig { size, position, resizable: true, movable: true, min_size: None, max_size: None }),
    {
        WindowConfig { size, position, resizable: true, movable: true, min_size: None, max_size: None }
    }
}

/// The per-window configurations, by window id.
#[verifier::external_body]
pub struct WindowConfigTable {
    inner: hashbrown::HashMap<String, WindowConfig>,
}

/// The configurations a table holds, by window id.
pub uninterp spec fn window_configs(t: WindowConfigTable) -> Map<Seq<char>, WindowConfig>;

/// No configuration for any window.
pub open spec fn no_window_configs() -> Map<Seq<char>, WindowConfig> {
    Map::empty()
}

/// `hashbrown::HashMap::new`: an empty table.
#[verifier::external_body]
fn config_table_new() -> (t: WindowConfigTable)
    ensures
        window_configs(t) == no_window_configs(),
{
    WindowConfigTable { inner: hashbrown::HashMap::new() }
}

/// `hashbrown::HashMap::insert`: the id maps to the configuration
/// afterwards, replacing any before.
#[verifier::external_body]
fn config_table_insert(t: &mut WindowConfigTable, id: String, config: WindowConfig)
    ensures
        window_configs(*final(t)) == window_configs(*old(t)).insert(id@, config),
{
    t.inner.insert(id, config);
}

/// `hashbrown::HashMap::get`, copied out.
#[verifier::external_body]
fn config_table_get(t: &WindowConfigTable, id: &str) -> (r: Option<WindowConfig>)
    ensures
        window_configs(*t).contains_key(id@) ==> r == Some(window_configs(*t)[id@]),
        !window_configs(*t).contains_key(id@) ==> r is None,
{
    t.inner.get(id).copied()
}

/// Configuration for window layouts in the GUI.
pub struct WindowLayoutConfig {
    /// Default window size (width, height)
    pub default_size: (u32, u32),
    /// Default window position (x, y)
    pub default_position: (i32, i32),
    /// Margins between windows
    pub margin: u32,
    /// The configurations of particular windows, by id
    pub window_configs: WindowConfigTable,
    /// Determines if windows should snap to edges
    pub snap_to_edges: bool,
    /// Grid size for snapping (width, height)
    pub grid_size: (u32, u32),
}

/// The default layout: 800x600 windows at (100, 100), 5 pixels apart,
/// snapping to a 10x10 grid, with no window of its own.
pub open spec fn is_default_layout(c: WindowLayoutConfig) -> bool {
    &&& c.default_size == (800u32, 600u32)
    &&& c.default_position == (100i32, 100i32)
    &&& c.margin == 5
    &&& window_configs(c.window_configs) == no_window_configs()
    &&& c.snap_to_edges
    &&& c.grid_size == (10u32, 10u32)
}

impl Default for WindowLayoutConfig {
    fn default() -> (c: Self)
        ensures
            is_default_layout(c),
    {
        WindowLayoutConfig {
            default_size: (800, 600),
            default_position: (100, 100),
            margin: 5,
            window_configs: config_table_new(),
            snap_to_edges: true,
            grid_size: (10, 10),
        }
    }
}

impl WindowLayoutConfig {
    /// Create a new window layout configuration (the default one).
    pub fn new() -> (c: Self)
        ensures
            is_default_layout(c),
    {
        Self::default()
    }

    /// Add or update a specific window configuration
    pub fn add_window_config(&mut self, id: &str, config: WindowConfig)
        ensures
            window_configs(final(self).window_configs) == window_configs(old(self).window_configs).insert(id@, config),
            final(self).default_size == old(self).default_size,
            final(self).default_position == old(self).default_position,
            final(self).margin == old(self).margin,
            final(self).snap_to_edges == old(self).snap_to_edges,
            final(self).grid_size == old(self).grid_size,
    {
        config_table_insert(&mut self.window_configs, string_from_str(id), config);
    }

    /// The configuration of a window: its own where it has one, else the
    /// default size and position, resizable and movable, unconstrained.
    pub fn get_window_config(&self, id: &str) -> (c: WindowConfig)
        ensures
            c == if window_configs(self.window_configs).contains_key(id@) {
                window_configs(self.window_configs)[id@]
            } else {
                WindowConfig {
                    size: self.default_size,
                    position: self.default_position,
                    resizable: true,
                    movable: true,
                    min_size: None,
                    max_size: None,
                }
            },
    {
        match config_table_get(&self.window_configs, id) {
            Some(c) => c,
            None => WindowConfig {
                size: self.default_size,
                position: self.default_position,
                resizable: true,
                movable: true,
                min_size: None,
                max_size: None,
            },
        }
    }

    /// Read a layout from bytes: the bytes are not read yet, and the default
    /// layout is given.
    pub fn from_bytes(bytes: &[u8]) -> (r: Result<Self, &'static str>)
        ensures
            r matches Ok(c) && is_default_layout(c),
    {
        Ok(Self::default())
    }

    /// Write a layout to bytes: nothing is written yet.
    pub fn to_bytes(&self) -> (r: Result<Vec<u8>, &'static str>)
        ensures
            r matches Ok(v) && v@.len() == 0,
    {
        Ok(Vec::new())
    }
}

/// The configuration last added for a window is the one it is given: after
/// `add_window_config(id, c)`, `get_window_config(id)` is `c`, and other
/// windows keep theirs.
pub proof fn lemma_added_config_is_read_back(
    configs: Map<Seq<char>, WindowConfig>,
    id: Seq<char>,
    c: WindowConfig,
    other: Seq<char>,
)
    ensures
        configs.insert(id, c).contains_key(id) && configs.insert(id, c)[id] == c,
        other != id ==> (configs.insert(id, c).contains_key(other) == configs.contains_key(other)),
        other != id && configs.contains_key(other) ==> configs.insert(id, c)[other] == configs[other],
{
}

} // verus!
