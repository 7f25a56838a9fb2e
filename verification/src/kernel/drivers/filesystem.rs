//! Filesystem layer: a RAM filesystem with inodes, plus the mount table,
//! directory handles and file handles built on it.

use vstd::prelude::*;
use vstd::string::StringSliceAdditionalSpecFns;
use crate::clock::{system_time_now, elapsed_since_epoch, duration_as_secs};
use crate::text::{chars_of, chars_equal, chars_less, chars_lt, string_from_chars, string_from_str, copy_string, str_equal, string_push_str};

verus! {

/// Filesystem types
#[derive(Debug, Clone, Copy, PartialEq, Eq, Structural)]
pub enum FilesystemType {
    Unknown,
    Fat16,
    Fat32,
    Ext2,
    Iso9660,
    Ntfs,
    RamFs,
}

/// File types
#[derive(Debug, Clone, Copy, PartialEq, Eq, Structural)]
pub enum FileType {
    Regular,
    Directory,
    Symlink,
    Special,
}

/// File attributes
#[derive(Debug, Clone, Copy, PartialEq, Eq, Structural)]
pub struct FileAttributes {
    pub readonly: bool,
    pub hidden: bool,
    pub system: bool,
    pub directory: bool,
    pub archive: bool,
}

/// File entry information
#[derive(Debug)]
pub struct FileEntry {
    pub name: String,
    pub file_type: FileType,
    pub size: u64,
    pub attributes: FileAttributes,
    pub creation_time: u64,
    pub modification_time: u64,
    pub access_time: u64,
}

/// Current wall-clock time in seconds since the Unix epoch (0 when the
/// clock reads earlier), used for the timestamps of RAM filesystem inodes.
fn get_current_time() -> u64 {
    let now = system_time_now();
    match elapsed_since_epoch(&now) {
        Some(d) => duration_as_secs(&d),
        None => 0,
    }
}

impl FileAttributes {
    pub open spec fn plain() -> FileAttributes {
        FileAttributes { readonly: false, hidden: false, system: false, directory: false, archive: false }
    }

    pub fn new() -> (r: Self)
        ensures
            r == Self::plain(),
    {
        Self { readonly: false, hidden: false, system: false, directory: false, archive: false }
    }
}

impl FileEntry {
    pub fn new(name: String, file_type: FileType, size: u64) -> (r: Self)
        ensures
            r.name@ == name@,
            r.file_type == file_type,
            r.size == size,
            r.attributes == FileAttributes::plain(),
            r.creation_time == 0,
            r.modification_time == 0,
            r.access_time == 0,
    {
        Self {
            name,
            file_type,
            size,
            attributes: FileAttributes::new(),
            creation_time: 0,
            modification_time: 0,
            access_time: 0,
        }
    }

    pub fn is_directory(&self) -> (r: bool)
        ensures
            r == (self.file_type == FileType::Directory),
    {
        self.file_type == FileType::Directory
    }

    /// An exact copy of this entry.
    pub fn duplicate(&self) -> (r: Self)
        ensures
            r.name@ == self.name@,
            r.file_type == self.file_type,
            r.size == self.size,
            r.attributes == self.attributes,
            r.creation_time == self.creation_time,
            r.modification_time == self.modification_time,
            r.access_time == self.access_time,
    {
        FileEntry {
            name: copy_string(&self.name),
            file_type: self.file_type,
            size: self.size,
            attributes: self.attributes,
            creation_time: self.creation_time,
            modification_time: self.modification_time,
            access_time: self.access_time,
        }
    }
}

// ---------------------------------------------------------------------------
// Model of the RAM filesystem
// ---------------------------------------------------------------------------

/// Abstract content of one inode (timestamps left out: they come from the clock).
pub struct InodeModel {
    pub file_type: FileType,
    pub size: u64,
    pub data: Option<Seq<u8>>,
    pub children: Option<Seq<(Seq<char>, u64)>>,
    pub attributes: FileAttributes,
}

/// Abstract content of a RAM filesystem: inode `i` is `inodes[i]`.
pub struct RamModel {
    pub inodes: Seq<InodeModel>,
    pub root: u64,
    pub next_id: u64,
}

pub open spec fn directory_model() -> InodeModel {
    InodeModel {
        file_type: FileType::Directory,
        size: 0,
        data: None,
        children: Some(Seq::empty()),
        attributes: FileAttributes { directory: true, ..FileAttributes::plain() },
    }
}

pub open spec fn file_model() -> InodeModel {
    InodeModel {
        file_type: FileType::Regular,
        size: 0,
        data: Some(Seq::empty()),
        children: None,
        attributes: FileAttributes::plain(),
    }
}

/// The freshly made RAM filesystem: one empty root directory at index 0.
pub open spec fn initial_ram_model() -> RamModel {
    RamModel { inodes: seq![directory_model()], root: 0, next_id: 1 }
}

/// The inode that `name` names in a directory listing (first match).
pub open spec fn find_child(children: Seq<(Seq<char>, u64)>, name: Seq<char>) -> Option<u64>
    decreases children.len(),
{
    if children.len() == 0 {
        None
    } else if children[0].0 == name {
        Some(children[0].1)
    } else {
        find_child(children.drop_first(), name)
    }
}

/// Position at which `name` is inserted in a listing kept in name order.
pub open spec fn insert_pos(children: Seq<(Seq<char>, u64)>, name: Seq<char>) -> int
    decreases children.len(),
{
    if children.len() == 0 {
        0
    } else if chars_lt(children[0].0, name) {
        1 + insert_pos(children.drop_first(), name)
    } else {
        0
    }
}

/// The listing with `name` removed (its first occurrence).
pub open spec fn remove_child(children: Seq<(Seq<char>, u64)>, name: Seq<char>) -> Seq<(Seq<char>, u64)>
    decreases children.len(),
{
    if children.len() == 0 {
        children
    } else if children[0].0 == name {
        children.drop_first()
    } else {
        seq![children[0]] + remove_child(children.drop_first(), name)
    }
}

/// One step of path resolution: from directory `cur` to its entry `name`.
pub open spec fn step(m: RamModel, cur: u64, name: Seq<char>) -> Result<u64, &'static str> {
    if cur >= m.inodes.len() {
        Err("Invalid inode")
    } else if m.inodes[cur as int].file_type != FileType::Directory {
        Err("Not a directory")
    } else if m.inodes[cur as int].children is None {
        Err("Directory has no children")
    } else {
        match find_child(m.inodes[cur as int].children.unwrap(), name) {
            Some(id) => Ok(id),
            None => Err("Path component not found"),
        }
    }
}

/// Resolution of a list of path components starting at `cur`.
pub open spec fn walk(m: RamModel, cur: u64, comps: Seq<Seq<char>>) -> Result<u64, &'static str>
    decreases comps.len(),
{
    if comps.len() == 0 {
        Ok(cur)
    } else {
        match step(m, cur, comps[0]) {
            Ok(next) => walk(m, next, comps.drop_first()),
            Err(e) => Err(e),
        }
    }
}

/// State of a left-to-right scan of a path: finished components and the
/// component being read.
pub open spec fn scan_path(p: Seq<char>) -> (Seq<Seq<char>>, Seq<char>)
    decreases p.len(),
{
    if p.len() == 0 {
        (Seq::empty(), Seq::empty())
    } else {
        let (cs, cur) = scan_path(p.drop_last());
        if p.last() == '/' {
            (if cur.len() > 0 { cs.push(cur) } else { cs }, Seq::empty())
        } else {
            (cs, cur.push(p.last()))
        }
    }
}

/// The non-empty components of a `/`-separated path.
pub open spec fn path_components(p: Seq<char>) -> Seq<Seq<char>> {
    let (cs, cur) = scan_path(p);
    if cur.len() > 0 { cs.push(cur) } else { cs }
}

/// The inode that a path names, or the error met on the way.
pub open spec fn lookup_spec(m: RamModel, path: Seq<char>) -> Result<u64, &'static str> {
    walk(m, m.root, path_components(path))
}

/// The path without its trailing slashes.
pub open spec fn trim_trailing_slashes(p: Seq<char>) -> Seq<char>
    decreases p.len(),
{
    if p.len() > 0 && p.last() == '/' {
        trim_trailing_slashes(p.drop_last())
    } else {
        p
    }
}

/// Index of the last slash of a path.
pub open spec fn last_slash(p: Seq<char>) -> Option<int>
    decreases p.len(),
{
    if p.len() == 0 {
        None
    } else if p.last() == '/' {
        Some(p.len() - 1)
    } else {
        last_slash(p.drop_last())
    }
}

/// A path split into its parent directory and its last name.
pub open spec fn split_path_spec(path: Seq<char>) -> Result<(Seq<char>, Seq<char>), &'static str> {
    let t = trim_trailing_slashes(path);
    if t.len() == 0 {
        Err("Empty path")
    } else {
        match last_slash(t) {
            Some(k) => {
                let parent = if k == 0 { seq!['/'] } else { t.take(k) };
                let name = t.skip(k + 1);
                if name.len() == 0 { Err("Invalid path") } else { Ok((parent, name)) }
            },
            None => Ok((seq!['/'], t)),
        }
    }
}

/// The model after a new inode `node` is allocated and entered in directory
/// `parent` under `name`.
pub open spec fn add_entry(m: RamModel, parent: u64, name: Seq<char>, node: InodeModel) -> RamModel {
    let p = m.inodes[parent as int];
    let kids = p.children.unwrap();
    RamModel {
        inodes: m.inodes.push(node).update(
            parent as int,
            InodeModel { children: Some(kids.insert(insert_pos(kids, name), (name, m.next_id))), ..p },
        ),
        root: m.root,
        next_id: (m.next_id + 1) as u64,
    }
}

/// Why creating `name` in `parent` is refused, if it is.
pub open spec fn create_error(m: RamModel, parent: u64, name: Seq<char>) -> Option<&'static str> {
    if parent >= m.inodes.len() {
        Some("Parent directory not found")
    } else if m.inodes[parent as int].file_type != FileType::Directory {
        Some("Parent is not a directory")
    } else if m.inodes[parent as int].children is None {
        Some("Parent has no children map")
    } else if find_child(m.inodes[parent as int].children.unwrap(), name) is Some {
        Some("Entry already exists")
    } else {
        None
    }
}

/// Why deleting `name` from `parent` is refused, if it is.
pub open spec fn delete_error(m: RamModel, parent: u64, name: Seq<char>) -> Option<&'static str> {
    if parent >= m.inodes.len() {
        Some("Parent directory not found")
    } else if m.inodes[parent as int].file_type != FileType::Directory {
        Some("Parent is not a directory")
    } else if m.inodes[parent as int].children is None {
        Some("Parent has no children map")
    } else if find_child(m.inodes[parent as int].children.unwrap(), name) is None {
        Some("Entry does not exist")
    } else {
        None
    }
}

/// The model after `name` is removed from directory `parent`.
pub open spec fn remove_entry(m: RamModel, parent: u64, name: Seq<char>) -> RamModel {
    let p = m.inodes[parent as int];
    RamModel {
        inodes: m.inodes.update(
            parent as int,
            InodeModel { children: Some(remove_child(p.children.unwrap(), name)), ..p },
        ),
        ..m
    }
}

/// The bytes of a file after `buf` is written at `offset`: zero-filled up
/// to the end of the write, then overwritten.
pub open spec fn written_data(data: Seq<u8>, buf: Seq<u8>, offset: int) -> Seq<u8> {
    let req = offset + buf.len();
    let grown = if data.len() < req { data + Seq::new((req - data.len()) as nat, |i: int| 0u8) } else { data };
    Seq::new(grown.len(), |i: int| if offset <= i < req { buf[i - offset] } else { grown[i] })
}

/// Why a read of inode `id` fails, if it does.
pub open spec fn read_error(m: RamModel, id: u64, offset: u64, buf_len: nat) -> Option<&'static str> {
    if id >= m.inodes.len() {
        Some("File not found")
    } else if m.inodes[id as int].file_type != FileType::Regular {
        Some("Not a regular file")
    } else if m.inodes[id as int].data is None {
        Some("File has no data buffer")
    } else if offset >= m.inodes[id as int].size {
        None
    } else {
        let n = read_count(m.inodes[id as int].size, offset, buf_len);
        if offset + n <= m.inodes[id as int].data.unwrap().len() { None } else { Some("Invalid file size") }
    }
}

/// How many bytes a read of `buf_len` bytes at `offset` returns from a file of `size` bytes.
pub open spec fn read_count(size: u64, offset: u64, buf_len: nat) -> int {
    if offset >= size {
        0
    } else if size - offset < buf_len {
        size - offset
    } else {
        buf_len as int
    }
}


/// Why listing directory `id` fails, if it does.
pub open spec fn directory_error(m: RamModel, id: u64) -> Option<&'static str> {
    if id >= m.inodes.len() {
        Some("Directory not found")
    } else if m.inodes[id as int].file_type != FileType::Directory {
        Some("Not a directory")
    } else if m.inodes[id as int].children is None {
        Some("Directory has no children")
    } else {
        None
    }
}

/// `e` describes inode `n` under the name `name`.
pub open spec fn entry_matches(e: FileEntry, name: Seq<char>, n: InodeModel) -> bool {
    &&& e.name@ == name
    &&& e.file_type == n.file_type
    &&& e.size == n.size
    &&& e.attributes == n.attributes
}

/// A directory listing: `.` and `..`, then one entry per child in order.
pub open spec fn listing_matches(es: Seq<FileEntry>, m: RamModel, kids: Seq<(Seq<char>, u64)>) -> bool {
    &&& es.len() == kids.len() + 2
    &&& es[0].name@ == "."@ && es[0].file_type == FileType::Directory && es[0].size == 0
        && es[0].attributes == FileAttributes::plain()
    &&& es[1].name@ == ".."@ && es[1].file_type == FileType::Directory && es[1].size == 0
        && es[1].attributes == FileAttributes::plain()
    &&& forall|j: int| 0 <= j < kids.len() ==> entry_matches(#[trigger] es[j + 2], kids[j].0, m.inodes[kids[j].1 as int])
}

/// The buffer after a read of `n` bytes at `offset` from `data` into `buf`.
pub open spec fn read_into(data: Seq<u8>, offset: u64, n: int, buf: Seq<u8>) -> Seq<u8> {
    if n == 0 { buf } else { data.subrange(offset as int, offset + n) + buf.skip(n) }
}

/// Why a write to inode `id` fails, if it does.
pub open spec fn write_error(m: RamModel, id: u64) -> Option<&'static str> {
    if id >= m.inodes.len() {
        Some("File not found")
    } else if m.inodes[id as int].file_type != FileType::Regular {
        Some("Not a regular file")
    } else if m.inodes[id as int].data is None {
        Some("File has no data buffer")
    } else {
        None
    }
}

/// The model after `buf` is written at `offset` into file `id`.
pub open spec fn written_model(m: RamModel, id: u64, buf: Seq<u8>, offset: u64) -> RamModel {
    let n = m.inodes[id as int];
    let req = offset + buf.len();
    RamModel {
        inodes: m.inodes.update(
            id as int,
            InodeModel {
                data: Some(written_data(n.data.unwrap(), buf, offset as int)),
                size: if req > n.size { req as u64 } else { n.size },
                ..n
            },
        ),
        ..m
    }
}

// ---------------------------------------------------------------------------
// RAM filesystem
// ---------------------------------------------------------------------------

/// A directory listing entry: a name and the inode it names.
struct DirEntry {
    name: Vec<char>,
    inode: u64,
}

/// Inode structure for RAM filesystem
struct RamInode {
    file_type: FileType,
    size: u64,
    data: Option<Vec<u8>>,
    children: Option<Vec<DirEntry>>,
    attributes: FileAttributes,
    creation_time: u64,
    modification_time: u64,
    access_time: u64,
}

/// RAM filesystem implementation
struct RamFilesystem {
    inodes: Vec<RamInode>,
    root_inode: u64,
    next_inode_id: u64,
}

spec fn children_model(c: Seq<DirEntry>) -> Seq<(Seq<char>, u64)> {
    c.map_values(|e: DirEntry| (e.name@, e.inode))
}

impl RamInode {
    spec fn model(&self) -> InodeModel {
        InodeModel {
            file_type: self.file_type,
            size: self.size,
            data: match self.data {
                Some(d) => Some(d@),
                None => None,
            },
            children: match self.children {
                Some(c) => Some(children_model(c@)),
                None => None,
            },
            attributes: self.attributes,
        }
    }

    fn new_directory() -> (r: Self)
        ensures
            r.model() == directory_model(),
    {
        let mut attrs = FileAttributes::new();
        attrs.directory = true;
        let t = get_current_time();
        let kids: Vec<DirEntry> = Vec::new();
        let r = Self {
            file_type: FileType::Directory,
            size: 0,
            data: None,
            children: Some(kids),
            attributes: attrs,
            creation_time: t,
            modification_time: t,
            access_time: t,
        };
        assert(children_model(kids@) =~= Seq::<(Seq<char>, u64)>::empty());
        r
    }

    fn new_file() -> (r: Self)
        ensures
            r.model() == file_model(),
    {
        let t = get_current_time();
        let d: Vec<u8> = Vec::new();
        let r = Self {
            file_type: FileType::Regular,
            size: 0,
            data: Some(d),
            children: None,
            attributes: FileAttributes::new(),
            creation_time: t,
            modification_time: t,
            access_time: t,
        };
        assert(d@ =~= Seq::<u8>::empty());
        r
    }

    fn to_file_entry(&self, name: String) -> (r: FileEntry)
        ensures
            r.name@ == name@,
            r.file_type == self.file_type,
            r.size == self.size,
            r.attributes == self.attributes,
            r.creation_time == self.creation_time,
            r.modification_time == self.modification_time,
            r.access_time == self.access_time,
    {
        FileEntry {
            name,
            file_type: self.file_type,
            size: self.size,
            attributes: self.attributes,
            creation_time: self.creation_time,
            modification_time: self.modification_time,
            access_time: self.access_time,
        }
    }
}

/// A copy of a character vector.
fn copy_chars(name: &Vec<char>) -> (r: Vec<char>)
    ensures
        r@ == name@,
{
    let mut nm: Vec<char> = Vec::new();
    let mut i: usize = 0;
    while i < name.len()
        invariant
            i <= name.len(),
            nm@ == name@.take(i as int),
        decreases name.len() - i,
    {
        nm.push(name[i]);
        assert(name@.take(i + 1) =~= name@.take(i as int).push(name@[i as int]));
        i += 1;
    }
    assert(name@.take(name.len() as int) =~= name@);
    nm
}

/// Index of `name` in a listing, if present.
fn find_entry(children: &Vec<DirEntry>, name: &Vec<char>) -> (r: Option<usize>)
    ensures
        match r {
            Some(i) => i < children.len() && children@[i as int].name@ == name@
                && find_child(children_model(children@), name@) == Some(children@[i as int].inode)
                && forall|j: int| 0 <= j < i ==> #[trigger] children@[j].name@ != name@,
            None => find_child(children_model(children@), name@) is None,
        },
{
    let ghost cm = children_model(children@);
    let mut i: usize = 0;
    assert(cm.skip(0) =~= cm);
    while i < children.len()
        invariant
            i <= children.len(),
            cm == children_model(children@),
            find_child(cm, name@) == find_child(cm.skip(i as int), name@),
            forall|j: int| 0 <= j < i ==> #[trigger] children@[j].name@ != name@,
        decreases children.len() - i,
    {
        assert(cm.skip(i as int)[0] == (children@[i as int].name@, children@[i as int].inode));
        if chars_equal(&children[i].name, name) {
            return Some(i);
        }
        assert(cm.skip(i as int).drop_first() =~= cm.skip(i + 1));
        i += 1;
    }
    None
}

/// Where `name` goes in a listing kept in name order.
fn entry_insert_pos(children: &Vec<DirEntry>, name: &Vec<char>) -> (r: usize)
    ensures
        r as int == insert_pos(children_model(children@), name@),
        r <= children.len(),
{
    let ghost cm = children_model(children@);
    let mut i: usize = 0;
    assert(cm.skip(0) =~= cm);
    while i < children.len() && chars_less(&children[i].name, name)
        invariant
            i <= children.len(),
            cm == children_model(children@),
            insert_pos(cm, name@) == i + insert_pos(cm.skip(i as int), name@),
        decreases children.len() - i,
    {
        assert(cm.skip(i as int)[0] == (children@[i as int].name@, children@[i as int].inode));
        assert(cm.skip(i as int).drop_first() =~= cm.skip(i + 1));
        i += 1;
    }
    if i < children.len() {
        assert(cm.skip(i as int)[0] == (children@[i as int].name@, children@[i as int].inode));
    }
    i
}

proof fn lemma_find_remove(cm: Seq<(Seq<char>, u64)>, name: Seq<char>, i: int)
    requires
        0 <= i < cm.len(),
        cm[i].0 == name,
        forall|j: int| 0 <= j < i ==> cm[j].0 != name,
    ensures
        remove_child(cm, name) == cm.remove(i),
    decreases cm.len(),
{
    if i == 0 {
        assert(cm.drop_first() =~= cm.remove(0));
    } else {
        lemma_find_remove(cm.drop_first(), name, i - 1);
        assert(seq![cm[0]] + cm.drop_first().remove(i - 1) =~= cm.remove(i));
    }
}


/// Well-formedness of a RAM filesystem model: regular files carry a data
/// buffer as long as their size, directories a listing whose entries name
/// existing inodes.
pub open spec fn inode_ok(n: InodeModel, count: nat) -> bool {
    &&& (n.file_type == FileType::Regular ==> n.data is Some && n.data.unwrap().len() == n.size)
    &&& (n.file_type == FileType::Directory ==> n.children is Some && forall|j: int|
        0 <= j < n.children.unwrap().len() ==> (#[trigger] n.children.unwrap()[j]).1 < count)
}

pub open spec fn ram_wf(m: RamModel) -> bool {
    &&& m.inodes.len() >= 1
    &&& m.root == 0
    &&& m.inodes[0].file_type == FileType::Directory
    &&& m.inodes.len() == m.next_id
    &&& forall|i: int| 0 <= i < m.inodes.len() ==> inode_ok(#[trigger] m.inodes[i], m.inodes.len())
}

/// The components of a path, split at `/`, empty ones dropped.
fn path_components_exec(path: &Vec<char>) -> (r: Vec<Vec<char>>)
    ensures
        r@.map_values(|v: Vec<char>| v@) == path_components(path@),
{
    let mut comps: Vec<Vec<char>> = Vec::new();
    let mut cur: Vec<char> = Vec::new();
    let mut i: usize = 0;
    assert(path@.take(0) =~= Seq::<char>::empty());
    assert(comps@.map_values(|v: Vec<char>| v@) =~= Seq::<Seq<char>>::empty());
    while i < path.len()
        invariant
            i <= path.len(),
            (comps@.map_values(|v: Vec<char>| v@), cur@) == scan_path(path@.take(i as int)),
        decreases path.len() - i,
    {
        let c = path[i];
        assert(path@.take(i + 1).drop_last() =~= path@.take(i as int));
        assert(path@.take(i + 1).last() == c);
        let ghost before = comps@.map_values(|v: Vec<char>| v@);
        if c == '/' {
            if cur.len() > 0 {
                let done = cur;
                comps.push(done);
                cur = Vec::new();
                assert(comps@.map_values(|v: Vec<char>| v@) =~= before.push(done@));
            }
            assert(cur@ =~= Seq::<char>::empty());
        } else {
            cur.push(c);
        }
        i += 1;
    }
    assert(path@.take(path.len() as int) =~= path@);
    if cur.len() > 0 {
        let ghost before = comps@.map_values(|v: Vec<char>| v@);
        let done = cur;
        comps.push(done);
        assert(comps@.map_values(|v: Vec<char>| v@) =~= before.push(done@));
    }
    comps
}

impl RamFilesystem {
    spec fn view(&self) -> RamModel {
        RamModel {
            inodes: self.inodes@.map_values(|n: RamInode| n.model()),
            root: self.root_inode,
            next_id: self.next_inode_id,
        }
    }

    spec fn wf(&self) -> bool {
        ram_wf(self@)
    }

    fn new() -> (r: Self)
        ensures
            r.wf(),
            r@ == initial_ram_model(),
    {
        let mut fs = Self { inodes: Vec::new(), root_inode: 0, next_inode_id: 1 };
        let root_inode = RamInode::new_directory();
        fs.inodes.push(root_inode);
        assert(fs@.inodes =~= seq![directory_model()]);
        fs
    }

    fn allocate_inode(&mut self, inode: RamInode) -> (id: u64)
        requires
            old(self).wf(),
        ensures
            id == old(self)@.next_id,
            final(self)@ == (RamModel {
                inodes: old(self)@.inodes.push(inode.model()),
                next_id: (old(self)@.next_id + 1) as u64,
                ..old(self)@
            }),
    {
        let id = self.next_inode_id;
        assert(self@.inodes.len() == self.inodes@.len());
        assert(self.next_inode_id == self.inodes.len());
        self.inodes.push(inode);
        self.next_inode_id = self.inodes.len() as u64;
        assert(self@.inodes =~= old(self)@.inodes.push(inode.model()));
        id
    }

    fn lookup_path(&self, path: &Vec<char>) -> (r: Result<u64, &'static str>)
        requires
            self.wf(),
        ensures
            r == lookup_spec(self@, path@),
    {
        let ghost m = self@;
        if path.len() == 0 || (path.len() == 1 && path[0] == '/') {
            assert(path_components(path@) =~= Seq::<Seq<char>>::empty()) by {
                reveal_with_fuel(scan_path, 2);
                if path.len() == 1 {
                    assert(path@.drop_last() =~= Seq::<char>::empty());
                }
            }
            return Ok(self.root_inode);
        }
        let comps = path_components_exec(path);
        let ghost cs = comps@.map_values(|v: Vec<char>| v@);
        let mut cur = self.root_inode;
        let mut i: usize = 0;
        assert(cs.skip(0) =~= cs);
        while i < comps.len()
            invariant
                i <= comps.len(),
                m == self@,
                cs == comps@.map_values(|v: Vec<char>| v@),
                cs == path_components(path@),
                lookup_spec(m, path@) == walk(m, cur, cs.skip(i as int)),
            decreases comps.len() - i,
        {
            assert(cs.skip(i as int)[0] == comps@[i as int]@);
            assert(cs.skip(i as int).drop_first() =~= cs.skip(i + 1));
            if cur >= self.inodes.len() as u64 {
                return Err("Invalid inode");
            }
            let node = &self.inodes[cur as usize];
            assert(m.inodes[cur as int] == node.model());
            if node.file_type != FileType::Directory {
                return Err("Not a directory");
            }
            match &node.children {
                None => {
                    return Err("Directory has no children");
                },
                Some(kids) => {
                    match find_entry(kids, &comps[i]) {
                        Some(k) => {
                            cur = kids[k].inode;
                        },
                        None => {
                            return Err("Path component not found");
                        },
                    }
                },
            }
            i += 1;
        }
        Ok(cur)
    }

    /// Checks shared by directory and file creation.
    fn create_check(&self, parent_id: u64, name: &Vec<char>) -> (r: Option<&'static str>)
        requires
            self.wf(),
        ensures
            r == create_error(self@, parent_id, name@),
    {
        if parent_id >= self.inodes.len() as u64 {
            return Some("Parent directory not found");
        }
        let parent = &self.inodes[parent_id as usize];
        assert(self@.inodes[parent_id as int] == parent.model());
        if parent.file_type != FileType::Directory {
            return Some("Parent is not a directory");
        }
        match &parent.children {
            None => Some("Parent has no children map"),
            Some(kids) => {
                match find_entry(kids, name) {
                    Some(_) => Some("Entry already exists"),
                    None => None,
                }
            },
        }
    }

    /// Enters the inode `id` (just allocated) under `name` in directory `parent_id`.
    fn link_entry(&mut self, parent_id: u64, name: &Vec<char>, id: u64, Ghost(before): Ghost<RamModel>, Ghost(node): Ghost<InodeModel>)
        requires
            ram_wf(before),
            create_error(before, parent_id, name@) is None,
            node == directory_model() || node == file_model(),
            id == before.next_id,
            old(self)@ == (RamModel { inodes: before.inodes.push(node), next_id: (before.next_id + 1) as u64, ..before }),
        ensures
            final(self)@ == add_entry(before, parent_id, name@, node),
            final(self).wf(),
    {
        let ghost kids0 = before.inodes[parent_id as int].children.unwrap();
        assert(self@.inodes.len() == self.inodes@.len());
        assert(parent_id < before.inodes.len());
        assert(self@.inodes[parent_id as int] == self.inodes@[parent_id as int].model());
        assert(self.inodes@[parent_id as int].children is Some);
        let ghost old_inodes = self.inodes@;
        assert(parent_id < self.inodes.len());
        let idx = parent_id as usize;
        assert(idx == parent_id);
        let pos = match &self.inodes[idx].children {
            Some(kids) => entry_insert_pos(kids, name),
            None => 0,
        };
        let nm = copy_chars(name);
        let ghost kids_before = self.inodes@[idx as int].children.unwrap()@;
        let taken = self.inodes[idx].children.take();
        assert(taken is Some);
        assert(self.inodes@ =~= old_inodes.update(idx as int, self.inodes@[idx as int]));
        match taken {
            Some(mut kids) => {
                assert(kids@ == kids_before);
                let ghost nm_view = nm@;
                kids.insert(pos, DirEntry { name: nm, inode: id });
                assert(kids@[pos as int].name@ == name@);
                assert(children_model(kids@) =~= children_model(kids_before).insert(pos as int, (name@, id)));
                self.inodes[idx].children = Some(kids);
                assert(self.inodes@[idx as int].children.unwrap()@ == kids@);
            },
            None => {},
        }
        let ghost kids_after = self.inodes@[idx as int].children.unwrap()@;
        assert(children_model(kids_after) =~= children_model(kids_before).insert(pos as int, (name@, id)));
        let t = get_current_time();
        self.inodes[idx].modification_time = t;
        let ghost after = add_entry(before, parent_id, name@, node);
        assert(self.inodes@ =~= old_inodes.update(parent_id as int, self.inodes@[parent_id as int]));
        assert(self@.inodes =~= after.inodes);
        assert forall|i: int| 0 <= i < after.inodes.len() implies inode_ok(#[trigger] after.inodes[i], after.inodes.len()) by {
            if i == parent_id as int {
                let nk = after.inodes[i].children.unwrap();
                assert forall|j: int| 0 <= j < nk.len() implies (#[trigger] nk[j]).1 < after.inodes.len() by {
                    let p = insert_pos(kids0, name@);
                    if j < p {
                        assert(nk[j] == kids0[j]);
                    } else if j > p {
                        assert(nk[j] == kids0[j - 1]);
                    }
                }
            } else if i < before.inodes.len() {
                assert(after.inodes[i] == before.inodes[i]);
                let n = before.inodes[i];
                if n.file_type == FileType::Directory {
                    assert forall|j: int| 0 <= j < n.children.unwrap().len() implies (#[trigger] n.children.unwrap()[j]).1 < after.inodes.len() by {
                        assert(inode_ok(before.inodes[i], before.inodes.len()));
                    }
                }
            }
        }
    }


    fn create_directory(&mut self, parent_id: u64, name: &Vec<char>) -> (r: Result<u64, &'static str>)
        requires
            old(self).wf(),
        ensures
            final(self).wf(),
            match create_error(old(self)@, parent_id, name@) {
                Some(e) => r == Err::<u64, &'static str>(e) && final(self)@ == old(self)@,
                None => r == Ok::<u64, &'static str>(old(self)@.next_id)
                    && final(self)@ == add_entry(old(self)@, parent_id, name@, directory_model()),
            },
    {
        if let Some(e) = self.create_check(parent_id, name) {
            return Err(e);
        }
        let ghost before = self@;
        let dir_inode = RamInode::new_directory();
        let dir_id = self.allocate_inode(dir_inode);
        self.link_entry(parent_id, name, dir_id, Ghost(before), Ghost(directory_model()));
        Ok(dir_id)
    }

    fn create_file(&mut self, parent_id: u64, name: &Vec<char>) -> (r: Result<u64, &'static str>)
        requires
            old(self).wf(),
        ensures
            final(self).wf(),
            match create_error(old(self)@, parent_id, name@) {
                Some(e) => r == Err::<u64, &'static str>(e) && final(self)@ == old(self)@,
                None => r == Ok::<u64, &'static str>(old(self)@.next_id)
                    && final(self)@ == add_entry(old(self)@, parent_id, name@, file_model()),
            },
    {
        if let Some(e) = self.create_check(parent_id, name) {
            return Err(e);
        }
        let ghost before = self@;
        let file_inode = RamInode::new_file();
        let file_id = self.allocate_inode(file_inode);
        self.link_entry(parent_id, name, file_id, Ghost(before), Ghost(file_model()));
        Ok(file_id)
    }

    fn read_directory(&self, dir_id: u64) -> (r: Result<Vec<FileEntry>, &'static str>)
        requires
            self.wf(),
        ensures
            match directory_error(self@, dir_id) {
                Some(e) => r == Err::<Vec<FileEntry>, &'static str>(e),
                None => r is Ok && listing_matches(r->Ok_0@, self@, self@.inodes[dir_id as int].children.unwrap()),
            },
    {
        if dir_id >= self.inodes.len() as u64 {
            return Err("Directory not found");
        }
        let dir = &self.inodes[dir_id as usize];
        assert(self@.inodes[dir_id as int] == dir.model());
        if dir.file_type != FileType::Directory {
            return Err("Not a directory");
        }
        let children = match &dir.children {
            Some(c) => c,
            None => {
                return Err("Directory has no children");
            },
        };
        let ghost kids = children_model(children@);
        assert(inode_ok(self@.inodes[dir_id as int], self@.inodes.len()));
        assert(kids == self@.inodes[dir_id as int].children.unwrap());
        let mut entries: Vec<FileEntry> = Vec::new();
        entries.push(FileEntry::new(string_from_str("."), FileType::Directory, 0));
        entries.push(FileEntry::new(string_from_str(".."), FileType::Directory, 0));
        let mut i: usize = 0;
        while i < children.len()
            invariant
                i <= children.len(),
                kids == children_model(children@),
                self.wf(),
                forall|j: int| 0 <= j < kids.len() ==> (#[trigger] kids[j]).1 < self@.inodes.len(),
                entries@.len() == 2 + i,
                entries@[0].name@ == "."@ && entries@[0].file_type == FileType::Directory && entries@[0].size == 0
                    && entries@[0].attributes == FileAttributes::plain(),
                entries@[1].name@ == ".."@ && entries@[1].file_type == FileType::Directory && entries@[1].size == 0
                    && entries@[1].attributes == FileAttributes::plain(),
                forall|j: int| 0 <= j < i ==> entry_matches(#[trigger] entries@[j + 2], kids[j].0, self@.inodes[kids[j].1 as int]),
            decreases children.len() - i,
        {
            let child_id = children[i].inode;
            assert(kids[i as int].1 == child_id);
            if child_id < self.inodes.len() as u64 {
                let child = &self.inodes[child_id as usize];
                assert(self@.inodes[child_id as int] == child.model());
                let name = string_from_chars(&children[i].name);
                entries.push(child.to_file_entry(name));
            }
            i += 1;
        }
        Ok(entries)
    }

    fn read_file(&mut self, file_id: u64, buffer: &mut [u8], offset: u64) -> (r: Result<usize, &'static str>)
        requires
            old(self).wf(),
        ensures
            final(self).wf(),
            final(self)@ == old(self)@,
            match read_error(old(self)@, file_id, offset, old(buffer)@.len()) {
                Some(e) => r == Err::<usize, &'static str>(e) && final(buffer)@ == old(buffer)@,
                None => {
                    let n = read_count(old(self)@.inodes[file_id as int].size, offset, old(buffer)@.len());
                    &&& r == Ok::<usize, &'static str>(n as usize)
                    &&& final(buffer)@ == read_into(old(self)@.inodes[file_id as int].data.unwrap(), offset, n, old(buffer)@)
                },
            },
    {
        if file_id >= self.inodes.len() as u64 {
            return Err("File not found");
        }
        let idx = file_id as usize;
        assert(self@.inodes[idx as int] == self.inodes@[idx as int].model());
        if self.inodes[idx].file_type != FileType::Regular {
            return Err("Not a regular file");
        }
        if self.inodes[idx].data.is_none() {
            return Err("File has no data buffer");
        }
        let ghost before = self.inodes@;
        let t = get_current_time();
        self.inodes[idx].access_time = t;
        assert(self@ =~= old(self)@) by {
            assert(self.inodes@ =~= before.update(idx as int, self.inodes@[idx as int]));
            assert(self@.inodes =~= old(self)@.inodes);
        }
        let size = self.inodes[idx].size;
        if offset >= size {
            return Ok(0);
        }
        let available = size - offset;
        let to_read: usize = if available < buffer.len() as u64 { available as usize } else { buffer.len() };
        let data = match &self.inodes[idx].data {
            Some(d) => d,
            None => {
                return Err("File has no data buffer");
            },
        };
        assert(offset < data.len());
        let start = offset as usize;
        if to_read > data.len() - start {
            return Err("Invalid file size");
        }
        let ghost buf0 = buffer@;
        let mut i: usize = 0;
        while i < to_read
            invariant
                i <= to_read,
                to_read <= buffer@.len(),
                start + to_read <= data.len(),
                buffer@.len() == buf0.len(),
                forall|j: int| 0 <= j < i ==> buffer@[j] == data@[start + j],
                forall|j: int| i <= j < buffer@.len() ==> buffer@[j] == buf0[j],
            decreases to_read - i,
        {
            buffer[i] = data[start + i];
            i += 1;
        }
        assert(buffer@ =~= data@.subrange(start as int, start + to_read) + buf0.skip(to_read as int));
        Ok(to_read)
    }

    fn write_file(&mut self, file_id: u64, buffer: &[u8], offset: u64) -> (r: Result<usize, &'static str>)
        requires
            old(self).wf(),
            offset + buffer@.len() <= usize::MAX,
        ensures
            final(self).wf(),
            match write_error(old(self)@, file_id) {
                Some(e) => r == Err::<usize, &'static str>(e) && final(self)@ == old(self)@,
                None => r == Ok::<usize, &'static str>(buffer@.len() as usize)
                    && final(self)@ == written_model(old(self)@, file_id, buffer@, offset),
            },
    {
        if file_id >= self.inodes.len() as u64 {
            return Err("File not found");
        }
        let idx = file_id as usize;
        assert(self@.inodes[idx as int] == self.inodes@[idx as int].model());
        if self.inodes[idx].file_type != FileType::Regular {
            return Err("Not a regular file");
        }
        if self.inodes[idx].data.is_none() {
            return Err("File has no data buffer");
        }
        let ghost before = self.inodes@;
        let ghost m0 = self@;
        let taken = self.inodes[idx].data.take();
        let mut data = match taken {
            Some(d) => d,
            None => {
                return Err("File has no data buffer");
            },
        };
        let ghost d0 = data@;
        let required_size = offset as usize + buffer.len();
        while data.len() < required_size
            invariant
                data@.len() <= required_size || data@.len() == d0.len(),
                data@.len() >= d0.len(),
                forall|j: int| 0 <= j < d0.len() ==> data@[j] == d0[j],
                forall|j: int| d0.len() <= j < data@.len() ==> data@[j] == 0u8,
            decreases required_size - data.len(),
        {
            data.push(0u8);
        }
        let ghost grown = data@;
        let start = offset as usize;
        let mut i: usize = 0;
        while i < buffer.len()
            invariant
                i <= buffer.len(),
                start + buffer.len() == required_size,
                required_size <= data@.len(),
                data@.len() == grown.len(),
                forall|j: int| 0 <= j < start ==> data@[j] == grown[j],
                forall|j: int| start <= j < start + i ==> data@[j] == buffer@[j - start],
                forall|j: int| start + i <= j < data@.len() ==> data@[j] == grown[j],
            decreases buffer.len() - i,
        {
            data.set(start + i, buffer[i]);
            i += 1;
        }
        assert(data@ =~= written_data(d0, buffer@, offset as int)) by {
            let req = offset + buffer@.len();
            let g = if d0.len() < req { d0 + Seq::new((req - d0.len()) as nat, |k: int| 0u8) } else { d0 };
            assert(grown =~= g);
        }
        self.inodes[idx].data = Some(data);
        if required_size as u64 > self.inodes[idx].size {
            self.inodes[idx].size = required_size as u64;
        }
        let t = get_current_time();
        self.inodes[idx].modification_time = t;
        let ghost after = written_model(m0, file_id, buffer@, offset);
        assert(self.inodes@ =~= before.update(idx as int, self.inodes@[idx as int]));
        assert(self@.inodes =~= after.inodes);
        assert forall|k: int| 0 <= k < after.inodes.len() implies inode_ok(#[trigger] after.inodes[k], after.inodes.len()) by {
            if k != idx as int {
                assert(after.inodes[k] == m0.inodes[k]);
            }
        }
        Ok(buffer.len())
    }

    fn delete_entry(&mut self, parent_id: u64, name: &Vec<char>) -> (r: Result<(), &'static str>)
        requires
            old(self).wf(),
        ensures
            final(self).wf(),
            match delete_error(old(self)@, parent_id, name@) {
                Some(e) => r == Err::<(), &'static str>(e) && final(self)@ == old(self)@,
                None => r == Ok::<(), &'static str>(()) && final(self)@ == remove_entry(old(self)@, parent_id, name@),
            },
    {
        if parent_id >= self.inodes.len() as u64 {
            return Err("Parent directory not found");
        }
        let idx = parent_id as usize;
        assert(self@.inodes[idx as int] == self.inodes@[idx as int].model());
        if self.inodes[idx].file_type != FileType::Directory {
            return Err("Parent is not a directory");
        }
        let found = match &self.inodes[idx].children {
            None => {
                return Err("Parent has no children map");
            },
            Some(kids) => find_entry(kids, name),
        };
        let pos = match found {
            None => {
                return Err("Entry does not exist");
            },
            Some(p) => p,
        };
        let ghost before = self.inodes@;
        let ghost m0 = self@;
        let ghost kids0 = self.inodes@[idx as int].children.unwrap()@;
        let taken = self.inodes[idx].children.take();
        match taken {
            Some(mut kids) => {
                kids.remove(pos);
                proof {
                    lemma_find_remove(children_model(kids0), name@, pos as int);
                    assert(children_model(kids@) =~= children_model(kids0).remove(pos as int));
                }
                self.inodes[idx].children = Some(kids);
            },
            None => {},
        }
        let t = get_current_time();
        self.inodes[idx].modification_time = t;
        let ghost after = remove_entry(m0, parent_id, name@);
        assert(self.inodes@ =~= before.update(idx as int, self.inodes@[idx as int]));
        assert(self@.inodes =~= after.inodes);
        assert forall|k: int| 0 <= k < after.inodes.len() implies inode_ok(#[trigger] after.inodes[k], after.inodes.len()) by {
            assert(inode_ok(m0.inodes[k], m0.inodes.len()));
            if k == idx as int {
                let nk = after.inodes[k].children.unwrap();
                let ok = m0.inodes[k].children.unwrap();
                assert forall|j: int| 0 <= j < nk.len() implies (#[trigger] nk[j]).1 < after.inodes.len() by {
                    if j < pos {
                        assert(nk[j] == ok[j]);
                    } else {
                        assert(nk[j] == ok[j + 1]);
                    }
                }
            }
        }
        Ok(())
    }
}

// ---------------------------------------------------------------------------
// Paths
// ---------------------------------------------------------------------------

/// The characters `v[lo..hi]`.
fn copy_range(v: &Vec<char>, lo: usize, hi: usize) -> (r: Vec<char>)
    requires
        lo <= hi <= v.len(),
    ensures
        r@ == v@.subrange(lo as int, hi as int),
{
    let mut out: Vec<char> = Vec::new();
    let mut i = lo;
    while i < hi
        invariant
            lo <= i <= hi,
            hi <= v.len(),
            out@ == v@.subrange(lo as int, i as int),
        decreases hi - i,
    {
        out.push(v[i]);
        assert(v@.subrange(lo as int, i + 1) =~= v@.subrange(lo as int, i as int).push(v@[i as int]));
        i += 1;
    }
    out
}

/// Split a path into parent directory and file/dir name
fn split_path(path: &Vec<char>) -> (r: Result<(Vec<char>, Vec<char>), &'static str>)
    ensures
        match split_path_spec(path@) {
            Err(e) => r == Err::<(Vec<char>, Vec<char>), &'static str>(e),
            Ok(pn) => r is Ok && r->Ok_0.0@ == pn.0 && r->Ok_0.1@ == pn.1,
        },
{
    let mut end = path.len();
    assert(path@.take(end as int) =~= path@);
    while end > 0 && path[end - 1] == '/'
        invariant
            end <= path.len(),
            trim_trailing_slashes(path@) == trim_trailing_slashes(path@.take(end as int)),
        decreases end,
    {
        assert(path@.take(end as int).drop_last() =~= path@.take(end - 1));
        end -= 1;
    }
    let ghost t = path@.take(end as int);
    assert(trim_trailing_slashes(path@) == t);
    if end == 0 {
        return Err("Empty path");
    }
    let mut k = end;
    assert(t.take(k as int) =~= t);
    while k > 0 && path[k - 1] != '/'
        invariant
            k <= end,
            end <= path.len(),
            t == path@.take(end as int),
            last_slash(t) == last_slash(t.take(k as int)),
        decreases k,
    {
        assert(t.take(k as int).drop_last() =~= t.take(k - 1));
        k -= 1;
    }
    if k == 0 {
        assert(last_slash(t.take(0)) is None);
        let whole = copy_range(path, 0, end);
        let mut root: Vec<char> = Vec::new();
        root.push('/');
        assert(root@ =~= seq!['/']);
        return Ok((root, whole));
    }
    let slash = k - 1;
    assert(last_slash(t.take(k as int)) == Some(slash as int));
    let name = copy_range(path, slash + 1, end);
    assert(name@ =~= t.skip(slash + 1));
    if name.len() == 0 {
        return Err("Invalid path");
    }
    let parent = if slash == 0 {
        let mut root: Vec<char> = Vec::new();
        root.push('/');
        assert(root@ =~= seq!['/']);
        root
    } else {
        let pr = copy_range(path, 0, slash);
        assert(pr@ =~= t.take(slash as int));
        pr
    };
    Ok((parent, name))
}

// ---------------------------------------------------------------------------
// Filesystems, handles, manager
// ---------------------------------------------------------------------------

/// Abstract state of one filesystem.
pub struct FsModel {
    pub name: Seq<char>,
    pub fs_type: FilesystemType,
    pub device: Seq<char>,
    pub mounted: bool,
    pub readonly: bool,
    pub ram: Option<RamModel>,
}

/// The RAM model after the entry at `path` is created as `node`, or why it is not.
pub open spec fn ram_create(m: RamModel, path: Seq<char>, node: InodeModel) -> Result<RamModel, &'static str> {
    match split_path_spec(path) {
        Err(e) => Err(e),
        Ok(pn) => match lookup_spec(m, pn.0) {
            Err(e) => Err(e),
            Ok(pid) => match create_error(m, pid, pn.1) {
                Some(e) => Err(e),
                None => Ok(add_entry(m, pid, pn.1, node)),
            },
        },
    }
}

/// The RAM model after the entry at `path` is removed, or why it is not.
pub open spec fn ram_delete(m: RamModel, path: Seq<char>) -> Result<RamModel, &'static str> {
    match split_path_spec(path) {
        Err(e) => Err(e),
        Ok(pn) => match lookup_spec(m, pn.0) {
            Err(e) => Err(e),
            Ok(pid) => match delete_error(m, pid, pn.1) {
                Some(e) => Err(e),
                None => Ok(remove_entry(m, pid, pn.1)),
            },
        },
    }
}

/// The checks that a modifying operation makes before it touches the RAM filesystem.
pub open spec fn mutation_gate(m: FsModel, readonly_msg: &'static str, unsupported_msg: &'static str) -> Option<&'static str> {
    if !m.mounted {
        Some("Filesystem not mounted")
    } else if m.readonly {
        Some(readonly_msg)
    } else if m.fs_type != FilesystemType::RamFs {
        Some(unsupported_msg)
    } else if m.ram is None {
        Some("RAM filesystem not initialized")
    } else {
        None
    }
}

/// Outcome of a path-based creation or deletion on a filesystem.
pub open spec fn path_update(m: FsModel, gate: Option<&'static str>, outcome: Result<RamModel, &'static str>,
    r: Result<(), &'static str>, after: FsModel) -> bool
{
    match gate {
        Some(e) => r == Err::<(), &'static str>(e) && after == m,
        None => match outcome {
            Err(e) => r == Err::<(), &'static str>(e) && after == m,
            Ok(m2) => r == Ok::<(), &'static str>(()) && after == (FsModel { ram: Some(m2), ..m }),
        },
    }
}

/// The entries that a mounted non-RAM filesystem reports in its root.
pub open spec fn placeholder_root_entries(es: Seq<FileEntry>) -> bool {
    &&& es.len() == 4
    &&& es[0].name@ == "boot"@ && es[0].file_type == FileType::Directory && es[0].size == 0
    &&& es[1].name@ == "home"@ && es[1].file_type == FileType::Directory && es[1].size == 0
    &&& es[2].name@ == "system"@ && es[2].file_type == FileType::Directory && es[2].size == 0
    &&& es[3].name@ == "kernel.bin"@ && es[3].file_type == FileType::Regular && es[3].size == 1024 * 1024
    &&& forall|i: int| 0 <= i < 4 ==> (#[trigger] es[i]).attributes == FileAttributes::plain()
}


/// Where an open of a directory leads: `Some(Ok(id))` for a RAM directory,
/// `Some(Err(e))` for a refusal, `None` for the root listing of another type.
pub open spec fn open_directory_outcome(m: FsModel, path: Seq<char>) -> Option<Result<u64, &'static str>> {
    if !m.mounted {
        Some(Err("Filesystem not mounted"))
    } else if m.fs_type == FilesystemType::RamFs {
        if m.ram is None {
            Some(Err("RAM filesystem not initialized"))
        } else {
            match lookup_spec(m.ram.unwrap(), path) {
                Err(e) => Some(Err(e)),
                Ok(id) => match directory_error(m.ram.unwrap(), id) {
                    Some(e) => Some(Err(e)),
                    None => Some(Ok(id)),
                },
            }
        }
    } else {
        None
    }
}

/// Where an open of a file leads: the inode of a RAM file, `None` for
/// another type, or why the open is refused.
pub open spec fn open_file_outcome(m: FsModel, path: Seq<char>, readonly: bool) -> Result<Option<u64>, &'static str> {
    if !m.mounted {
        Err("Filesystem not mounted")
    } else if !readonly && m.readonly {
        Err("Cannot open file for writing on readonly filesystem")
    } else if m.fs_type == FilesystemType::RamFs {
        if m.ram is None {
            Err("RAM filesystem not initialized")
        } else {
            match lookup_spec(m.ram.unwrap(), path) {
                Err(e) => Err(e),
                Ok(id) => if id >= m.ram.unwrap().inodes.len() {
                    Err("File not found")
                } else if m.ram.unwrap().inodes[id as int].file_type != FileType::Regular {
                    Err("Not a regular file")
                } else {
                    Ok(Some(id))
                },
            }
        }
    } else {
        Ok(None)
    }
}

/// Two entries hold the same values.
pub open spec fn same_entry(a: FileEntry, b: FileEntry) -> bool {
    &&& a.name@ == b.name@
    &&& a.file_type == b.file_type
    &&& a.size == b.size
    &&& a.attributes == b.attributes
    &&& a.creation_time == b.creation_time
    &&& a.modification_time == b.modification_time
    &&& a.access_time == b.access_time
}

pub open spec fn same_entries(a: Seq<FileEntry>, b: Seq<FileEntry>) -> bool {
    &&& a.len() == b.len()
    &&& forall|i: int| 0 <= i < a.len() ==> same_entry(#[trigger] a[i], b[i])
}

/// A copy of a list of entries.
fn copy_entries(es: &Vec<FileEntry>) -> (r: Vec<FileEntry>)
    ensures
        same_entries(r@, es@),
{
    let mut out: Vec<FileEntry> = Vec::new();
    let mut i: usize = 0;
    while i < es.len()
        invariant
            i <= es.len(),
            out@.len() == i,
            forall|j: int| 0 <= j < i ==> same_entry(#[trigger] out@[j], es@[j]),
        decreases es.len() - i,
    {
        out.push(es[i].duplicate());
        i += 1;
    }
    out
}

/// What `Filesystem::create_directory` leaves behind.
pub open spec fn directory_created(before: Filesystem, after: Filesystem, path: Seq<char>, r: Result<(), &'static str>) -> bool {
    &&& after.wf()
    &&& after.root_handle() == before.root_handle()
    &&& path_update(
        before.model(),
        mutation_gate(before.model(), "Cannot create directory on readonly filesystem",
            "Directory creation not implemented for this filesystem type"),
        ram_create(before.model().ram.unwrap(), path, directory_model()),
        r,
        after.model(),
    )
}

/// What `Filesystem::create_file` leaves behind.
pub open spec fn file_created(before: Filesystem, after: Filesystem, path: Seq<char>, r: Result<(), &'static str>) -> bool {
    &&& after.wf()
    &&& after.root_handle() == before.root_handle()
    &&& path_update(
        before.model(),
        mutation_gate(before.model(), "Cannot create file on readonly filesystem",
            "File creation not implemented for this filesystem type"),
        ram_create(before.model().ram.unwrap(), path, file_model()),
        r,
        after.model(),
    )
}

/// What `Filesystem::delete_entry` leaves behind.
pub open spec fn entry_deleted(before: Filesystem, after: Filesystem, path: Seq<char>, r: Result<(), &'static str>) -> bool {
    &&& after.wf()
    &&& after.root_handle() == before.root_handle()
    &&& path_update(
        before.model(),
        mutation_gate(before.model(), "Cannot delete entry on readonly filesystem",
            "Delete operation not implemented for this filesystem type"),
        ram_delete(before.model().ram.unwrap(), path),
        r,
        after.model(),
    )
}

/// The result of opening the directory at `path` on a filesystem with model
/// `m` whose mount-time root listing is `root`.
pub open spec fn directory_opened(m: FsModel, root: Option<DirectoryHandle>, path: Seq<char>, r: Result<DirectoryHandle, &'static str>) -> bool {
    match open_directory_outcome(m, path) {
        Some(Err(e)) => r == Err::<DirectoryHandle, &'static str>(e),
        Some(Ok(id)) => r is Ok && {
            let h = r->Ok_0;
            let rm = m.ram.unwrap();
            &&& h.path@ == path
            &&& h.fs_name@ == m.name
            &&& h.inode_id == Some(id)
            &&& listing_matches(h.entries@, rm, rm.inodes[id as int].children.unwrap())
        },
        None => match root {
            Some(rt) => r is Ok && {
                let h = r->Ok_0;
                &&& h.path@ == path
                &&& h.fs_name@ == m.name
                &&& h.inode_id is None
                &&& same_entries(h.entries@, rt.entries@)
            },
            None => r == Err::<DirectoryHandle, &'static str>("Root directory not found"),
        },
    }
}

/// The result of opening the file at `path` on a filesystem with model `m`.
pub open spec fn file_opened(m: FsModel, path: Seq<char>, readonly: bool, r: Result<FileHandle, &'static str>) -> bool {
    match open_file_outcome(m, path, readonly) {
        Err(e) => r == Err::<FileHandle, &'static str>(e),
        Ok(opened) => r is Ok && {
            let h = r->Ok_0@;
            &&& h.path == path
            &&& h.fs_name == m.name
            &&& h.position == 0
            &&& h.readonly == readonly
            &&& !h.closed
            &&& match opened {
                Some(id) => h.inode_id == Some(id) && h.size == m.ram.unwrap().inodes[id as int].size,
                None => h.inode_id is None && h.size == 1024,
            }
        },
    }
}

/// What mounting `before` leaves: the same filesystem where it was mounted,
/// else a mounted one with a RAM store where its type needs one and a
/// root listing.
pub open spec fn mounted_from(before: Filesystem, after: Filesystem) -> bool {
    &&& before.model().mounted ==> after == before
    &&& !before.model().mounted ==> {
        &&& after.model() == (FsModel {
            mounted: true,
            ram: if before.model().fs_type == FilesystemType::RamFs && before.model().ram is None {
                Some(initial_ram_model())
            } else {
                before.model().ram
            },
            ..before.model()
        })
        &&& after.root_handle() is Some
        &&& after.root_handle().unwrap().path@ == "/"@
        &&& after.root_handle().unwrap().fs_name@ == before.model().name
        &&& if before.model().fs_type == FilesystemType::RamFs {
            let m = after.model().ram.unwrap();
            &&& after.root_handle().unwrap().inode_id == Some(m.root)
            &&& listing_matches(after.root_handle().unwrap().entries@, m, m.inodes[m.root as int].children.unwrap())
        } else {
            &&& after.root_handle().unwrap().inode_id is None
            &&& placeholder_root_entries(after.root_handle().unwrap().entries@)
        }
    }
}

/// Filesystem structure
pub struct Filesystem {
    name: String,
    fs_type: FilesystemType,
    device: String,
    mounted: bool,
    readonly: bool,
    ram_fs: Option<RamFilesystem>,
    root_dir: Option<DirectoryHandle>,
}

/// Directory handle
pub struct DirectoryHandle {
    pub path: String,
    pub entries: Vec<FileEntry>,
    pub fs_name: String,
    pub inode_id: Option<u64>,
}

/// File handle
pub struct FileHandle {
    pub path: String,
    pub size: u64,
    pub position: u64,
    pub readonly: bool,
    pub fs_name: String,
    pub inode_id: Option<u64>,
    closed: bool,
}

/// What a file handle holds, seen from outside the module.
pub struct FileHandleView {
    pub path: Seq<char>,
    pub size: u64,
    pub position: u64,
    pub readonly: bool,
    pub fs_name: Seq<char>,
    pub inode_id: Option<u64>,
    pub closed: bool,
}

impl View for FileHandle {
    type V = FileHandleView;

    closed spec fn view(&self) -> FileHandleView {
        FileHandleView {
            path: self.path@,
            size: self.size,
            position: self.position,
            readonly: self.readonly,
            fs_name: self.fs_name@,
            inode_id: self.inode_id,
            closed: self.closed,
        }
    }
}

/// Filesystem manager
pub struct FilesystemManager {
    filesystems: Vec<Filesystem>,
    current_directory: String,
}

impl Filesystem {
    pub closed spec fn model(&self) -> FsModel {
        FsModel {
            name: self.name@,
            fs_type: self.fs_type,
            device: self.device@,
            mounted: self.mounted,
            readonly: self.readonly,
            ram: match self.ram_fs {
                Some(r) => Some(r@),
                None => None,
            },
        }
    }

    /// A well-formed filesystem's RAM model, where it has one, is well formed.
    pub proof fn lemma_ram_model_wf(&self)
        requires
            self.wf(),
        ensures
            self.model().ram is Some ==> ram_wf(self.model().ram.unwrap()),
    {
    }

    /// The RAM filesystem, where there is one, is well formed.
    pub closed spec fn wf(&self) -> bool {
        match self.ram_fs {
            Some(r) => r.wf(),
            None => true,
        }
    }

    /// The handle on the root directory made at mount time.
    pub closed spec fn root_handle(&self) -> Option<DirectoryHandle> {
        self.root_dir
    }

    /// The creation, modification and access times of the RAM inodes, by
    /// inode id (none without a RAM filesystem).
    pub closed spec fn stamps(&self) -> Seq<(u64, u64, u64)> {
        match self.ram_fs {
            Some(r) => r.inodes@.map_values(|n: RamInode| (n.creation_time, n.modification_time, n.access_time)),
            None => Seq::empty(),
        }
    }

    pub fn new(name: String, fs_type: FilesystemType, device: String, readonly: bool) -> (r: Self)
        ensures
            r.wf(),
            r.model() == (FsModel {
                name: name@,
                fs_type,
                device: device@,
                mounted: false,
                readonly,
                ram: if fs_type == FilesystemType::RamFs { Some(initial_ram_model()) } else { None },
            }),
            r.root_handle() is None,
    {
        let ram_fs = if fs_type == FilesystemType::RamFs { Some(RamFilesystem::new()) } else { None };
        Self { name, fs_type, device, mounted: false, readonly, ram_fs, root_dir: None }
    }

    pub fn shutdown(&mut self)
        requires
            old(self).wf(),
        ensures
            final(self).wf(),
            final(self).model() == (FsModel { mounted: false, ..old(self).model() }),
            final(self).root_handle() == old(self).root_handle(),
    {
        self.mounted = false;
    }

    pub fn mount(&mut self) -> (r: Result<(), &'static str>)
        requires
            old(self).wf(),
        ensures
            final(self).wf(),
            r is Ok,
            mounted_from(*old(self), *final(self)),
    {
        if self.mounted {
            return Ok(());
        }
        match self.fs_type {
            FilesystemType::RamFs => {
                if self.ram_fs.is_none() {
                    self.ram_fs = Some(RamFilesystem::new());
                }
                let ram_fs = match &self.ram_fs {
                    Some(r) => r,
                    None => {
                        return Err("RAM filesystem not initialized");
                    },
                };
                proof {
                    let m = ram_fs@;
                    assert(inode_ok(m.inodes[0], m.inodes.len()));
                }
                let entries = match ram_fs.read_directory(ram_fs.root_inode) {
                    Ok(e) => e,
                    Err(e) => {
                        return Err(e);
                    },
                };
                let root = ram_fs.root_inode;
                self.root_dir = Some(DirectoryHandle {
                    path: string_from_str("/"),
                    entries,
                    fs_name: copy_string(&self.name),
                    inode_id: Some(root),
                });
            },
            _ => {
                let mut root = DirectoryHandle {
                    path: string_from_str("/"),
                    entries: Vec::new(),
                    fs_name: copy_string(&self.name),
                    inode_id: None,
                };
                root.entries.push(FileEntry::new(string_from_str("boot"), FileType::Directory, 0));
                root.entries.push(FileEntry::new(string_from_str("home"), FileType::Directory, 0));
                root.entries.push(FileEntry::new(string_from_str("system"), FileType::Directory, 0));
                root.entries.push(FileEntry::new(string_from_str("kernel.bin"), FileType::Regular, 1024 * 1024));
                self.root_dir = Some(root);
            },
        }
        self.mounted = true;
        Ok(())
    }

    pub fn unmount(&mut self) -> (r: Result<(), &'static str>)
        requires
            old(self).wf(),
        ensures
            final(self).wf(),
            r is Ok,
            final(self).model() == (FsModel { mounted: false, ..old(self).model() }),
            old(self).model().mounted ==> final(self).root_handle() is None,
            !old(self).model().mounted ==> final(self).root_handle() == old(self).root_handle(),
    {
        if !self.mounted {
            return Ok(());
        }
        self.mounted = false;
        self.root_dir = None;
        Ok(())
    }

    pub fn is_mounted(&self) -> (r: bool)
        ensures
            r == self.model().mounted,
    {
        self.mounted
    }

    pub fn get_name(&self) -> (r: &str)
        ensures
            r@ == self.model().name,
    {
        self.name.as_str()
    }

    pub fn get_type(&self) -> (r: FilesystemType)
        ensures
            r == self.model().fs_type,
    {
        self.fs_type
    }

    pub fn get_device(&self) -> (r: &str)
        ensures
            r@ == self.model().device,
    {
        self.device.as_str()
    }

    pub fn is_readonly(&self) -> (r: bool)
        ensures
            r == self.model().readonly,
    {
        self.readonly
    }

    pub fn create_directory(&mut self, path: &str) -> (r: Result<(), &'static str>)
        requires
            old(self).wf(),
        ensures
            directory_created(*old(self), *final(self), path@, r),
    {
        if !self.mounted {
            return Err("Filesystem not mounted");
        }
        if self.readonly {
            return Err("Cannot create directory on readonly filesystem");
        }
        match self.fs_type {
            FilesystemType::RamFs => {
                let mut ram_fs = match self.ram_fs.take() {
                    Some(r) => r,
                    None => {
                        return Err("RAM filesystem not initialized");
                    },
                };
                let pc = chars_of(path);
                let result = Self::create_in(&mut ram_fs, &pc, true);
                self.ram_fs = Some(ram_fs);
                result
            },
            _ => Err("Directory creation not implemented for this filesystem type"),
        }
    }

    /// Path-based creation in a RAM filesystem: a directory when `dir`, else a file.
    fn create_in(ram_fs: &mut RamFilesystem, path: &Vec<char>, dir: bool) -> (r: Result<(), &'static str>)
        requires
            old(ram_fs).wf(),
        ensures
            final(ram_fs).wf(),
            match ram_create(old(ram_fs)@, path@, if dir { directory_model() } else { file_model() }) {
                Err(e) => r == Err::<(), &'static str>(e) && final(ram_fs)@ == old(ram_fs)@,
                Ok(m2) => r == Ok::<(), &'static str>(()) && final(ram_fs)@ == m2,
            },
    {
        let (parent_path, name) = match split_path(path) {
            Ok(pn) => pn,
            Err(e) => {
                return Err(e);
            },
        };
        let parent_id = match ram_fs.lookup_path(&parent_path) {
            Ok(id) => id,
            Err(e) => {
                return Err(e);
            },
        };
        let created = if dir {
            ram_fs.create_directory(parent_id, &name)
        } else {
            ram_fs.create_file(parent_id, &name)
        };
        match created {
            Ok(_) => Ok(()),
            Err(e) => Err(e),
        }
    }

    pub fn create_file(&mut self, path: &str) -> (r: Result<(), &'static str>)
        requires
            old(self).wf(),
        ensures
            file_created(*old(self), *final(self), path@, r),
    {
        if !self.mounted {
            return Err("Filesystem not mounted");
        }
        if self.readonly {
            return Err("Cannot create file on readonly filesystem");
        }
        match self.fs_type {
            FilesystemType::RamFs => {
                let mut ram_fs = match self.ram_fs.take() {
                    Some(r) => r,
                    None => {
                        return Err("RAM filesystem not initialized");
                    },
                };
                let pc = chars_of(path);
                let result = Self::create_in(&mut ram_fs, &pc, false);
                self.ram_fs = Some(ram_fs);
                result
            },
            _ => Err("File creation not implemented for this filesystem type"),
        }
    }

    pub fn delete_entry(&mut self, path: &str) -> (r: Result<(), &'static str>)
        requires
            old(self).wf(),
        ensures
            entry_deleted(*old(self), *final(self), path@, r),
    {
        if !self.mounted {
            return Err("Filesystem not mounted");
        }
        if self.readonly {
            return Err("Cannot delete entry on readonly filesystem");
        }
        match self.fs_type {
            FilesystemType::RamFs => {
                let mut ram_fs = match self.ram_fs.take() {
                    Some(r) => r,
                    None => {
                        return Err("RAM filesystem not initialized");
                    },
                };
                let pc = chars_of(path);
                let result = Self::delete_in(&mut ram_fs, &pc);
                self.ram_fs = Some(ram_fs);
                result
            },
            _ => Err("Delete operation not implemented for this filesystem type"),
        }
    }

    fn delete_in(ram_fs: &mut RamFilesystem, path: &Vec<char>) -> (r: Result<(), &'static str>)
        requires
            old(ram_fs).wf(),
        ensures
            final(ram_fs).wf(),
            match ram_delete(old(ram_fs)@, path@) {
                Err(e) => r == Err::<(), &'static str>(e) && final(ram_fs)@ == old(ram_fs)@,
                Ok(m2) => r == Ok::<(), &'static str>(()) && final(ram_fs)@ == m2,
            },
    {
        let (parent_path, name) = match split_path(path) {
            Ok(pn) => pn,
            Err(e) => {
                return Err(e);
            },
        };
        let parent_id = match ram_fs.lookup_path(&parent_path) {
            Ok(id) => id,
            Err(e) => {
                return Err(e);
            },
        };
        ram_fs.delete_entry(parent_id, &name)
    }


    pub fn open_directory(&self, path: &str) -> (r: Result<DirectoryHandle, &'static str>)
        requires
            self.wf(),
        ensures
            directory_opened(self.model(), self.root_handle(), path@, r),
    {
        if !self.mounted {
            return Err("Filesystem not mounted");
        }
        match self.fs_type {
            FilesystemType::RamFs => {
                let ram_fs = match &self.ram_fs {
                    Some(r) => r,
                    None => {
                        return Err("RAM filesystem not initialized");
                    },
                };
                let pc = chars_of(path);
                let dir_id = match ram_fs.lookup_path(&pc) {
                    Ok(id) => id,
                    Err(e) => {
                        return Err(e);
                    },
                };
                let entries = match ram_fs.read_directory(dir_id) {
                    Ok(es) => es,
                    Err(e) => {
                        return Err(e);
                    },
                };
                Ok(DirectoryHandle {
                    path: string_from_str(path),
                    entries,
                    fs_name: copy_string(&self.name),
                    inode_id: Some(dir_id),
                })
            },
            _ => {
                match &self.root_dir {
                    Some(root) => {
                        let entries = copy_entries(&root.entries);
                        Ok(DirectoryHandle {
                            path: string_from_str(path),
                            entries,
                            fs_name: copy_string(&self.name),
                            inode_id: None,
                        })
                    },
                    None => Err("Root directory not found"),
                }
            },
        }
    }

    pub fn open_file(&self, path: &str, readonly: bool) -> (r: Result<FileHandle, &'static str>)
        requires
            self.wf(),
        ensures
            file_opened(self.model(), path@, readonly, r),
    {
        if !self.mounted {
            return Err("Filesystem not mounted");
        }
        if !readonly && self.readonly {
            return Err("Cannot open file for writing on readonly filesystem");
        }
        match self.fs_type {
            FilesystemType::RamFs => {
                let ram_fs = match &self.ram_fs {
                    Some(r) => r,
                    None => {
                        return Err("RAM filesystem not initialized");
                    },
                };
                let pc = chars_of(path);
                let file_id = match ram_fs.lookup_path(&pc) {
                    Ok(id) => id,
                    Err(e) => {
                        return Err(e);
                    },
                };
                if file_id >= ram_fs.inodes.len() as u64 {
                    return Err("File not found");
                }
                let file = &ram_fs.inodes[file_id as usize];
                assert(ram_fs@.inodes[file_id as int] == file.model());
                if file.file_type != FileType::Regular {
                    return Err("Not a regular file");
                }
                Ok(FileHandle {
                    path: string_from_str(path),
                    size: file.size,
                    position: 0,
                    readonly,
                    fs_name: copy_string(&self.name),
                    inode_id: Some(file_id),
                    closed: false,
                })
            },
            _ => {
                Ok(FileHandle {
                    path: string_from_str(path),
                    size: 1024,
                    position: 0,
                    readonly,
                    fs_name: copy_string(&self.name),
                    inode_id: None,
                    closed: false,
                })
            },
        }
    }

    /// Reads from inode `id` of the RAM filesystem into `buffer` at `offset`.
    fn read_inode(&mut self, id: u64, buffer: &mut [u8], offset: u64) -> (r: Result<usize, &'static str>)
        requires
            old(self).wf(),
            old(self).model().ram is Some,
        ensures
            final(self).wf(),
            final(self).model() == old(self).model(),
            final(self).root_handle() == old(self).root_handle(),
            match read_error(old(self).model().ram.unwrap(), id, offset, old(buffer)@.len()) {
                Some(e) => r == Err::<usize, &'static str>(e) && final(buffer)@ == old(buffer)@,
                None => {
                    let m = old(self).model().ram.unwrap();
                    let n = read_count(m.inodes[id as int].size, offset, old(buffer)@.len());
                    &&& r == Ok::<usize, &'static str>(n as usize)
                    &&& final(buffer)@ == read_into(m.inodes[id as int].data.unwrap(), offset, n, old(buffer)@)
                },
            },
    {
        let mut ram_fs = match self.ram_fs.take() {
            Some(r) => r,
            None => {
                return Err("RAM filesystem not initialized");
            },
        };
        let result = ram_fs.read_file(id, buffer, offset);
        self.ram_fs = Some(ram_fs);
        result
    }

    /// Writes `buffer` at `offset` into inode `id` of the RAM filesystem.
    fn write_inode(&mut self, id: u64, buffer: &[u8], offset: u64) -> (r: Result<usize, &'static str>)
        requires
            old(self).wf(),
            old(self).model().ram is Some,
            offset + buffer@.len() <= usize::MAX,
        ensures
            final(self).wf(),
            final(self).root_handle() == old(self).root_handle(),
            match write_error(old(self).model().ram.unwrap(), id) {
                Some(e) => r == Err::<usize, &'static str>(e) && final(self).model() == old(self).model(),
                None => r == Ok::<usize, &'static str>(buffer@.len() as usize) && final(self).model() == (FsModel {
                    ram: Some(written_model(old(self).model().ram.unwrap(), id, buffer@, offset)),
                    ..old(self).model()
                }),
            },
    {
        let mut ram_fs = match self.ram_fs.take() {
            Some(r) => r,
            None => {
                return Err("RAM filesystem not initialized");
            },
        };
        let result = ram_fs.write_file(id, buffer, offset);
        self.ram_fs = Some(ram_fs);
        result
    }

    /// Marks inode `id` as modified now: its modification time becomes the
    /// clock's reading; nothing else changes, and nothing at all for an id
    /// with no inode.
    fn touch_inode(&mut self, id: u64)
        requires
            old(self).wf(),
        ensures
            final(self).wf(),
            final(self).model() == old(self).model(),
            final(self).root_handle() == old(self).root_handle(),
            touched(old(self).stamps(), final(self).stamps(), id),
    {
        let ghost mut tt: u64 = 0;
        let mut ram_fs = match self.ram_fs.take() {
            Some(r) => r,
            None => {
                return;
            },
        };
        if id < ram_fs.inodes.len() as u64 {
            let ghost before = ram_fs.inodes@;
            let ghost before_fs = ram_fs@;
            let idx = id as usize;
            let t = get_current_time();
            ram_fs.inodes[idx].modification_time = t;
            assert(ram_fs.inodes@ =~= before.update(idx as int, ram_fs.inodes@[idx as int]));
            assert(ram_fs.inodes@[idx as int].model() == before[idx as int].model());
            assert(ram_fs@.inodes =~= before_fs.inodes);
            proof {
                tt = t;
            }
        }
        self.ram_fs = Some(ram_fs);
        proof {
            let b = old(self).stamps();
            if id < b.len() {
                assert(self.stamps() =~= b.update(id as int, (b[id as int].0, tt, b[id as int].2)));
            } else {
                assert(self.stamps() =~= b);
            }
        }
    }}

// ---------------------------------------------------------------------------
// Filesystem manager
// ---------------------------------------------------------------------------

/// `i` is the first index of `fss` whose filesystem satisfies `p`.
pub open spec fn first_at(fss: Seq<Filesystem>, p: spec_fn(Filesystem) -> bool, i: int) -> bool {
    &&& 0 <= i < fss.len()
    &&& p(fss[i])
    &&& forall|j: int| 0 <= j < i ==> !p(#[trigger] fss[j])
}

/// The first index of `fss` whose filesystem satisfies `p`, if any.
pub open spec fn first_index(fss: Seq<Filesystem>, p: spec_fn(Filesystem) -> bool) -> Option<int> {
    if exists|i: int| first_at(fss, p, i) {
        Some(choose|i: int| first_at(fss, p, i))
    } else {
        None
    }
}

/// Filesystems named `name`.
pub open spec fn named(name: Seq<char>) -> spec_fn(Filesystem) -> bool {
    |fs: Filesystem| fs.model().name == name
}

/// Mounted filesystems.
pub open spec fn mounted() -> spec_fn(Filesystem) -> bool {
    |fs: Filesystem| fs.model().mounted
}

proof fn lemma_first_index_is(fss: Seq<Filesystem>, p: spec_fn(Filesystem) -> bool, i: int)
    requires
        first_at(fss, p, i),
    ensures
        first_index(fss, p) == Some(i),
{
    let k = choose|k: int| first_at(fss, p, k);
    assert(first_at(fss, p, k));
    if k < i {
        assert(!p(fss[k]));
    } else if k > i {
        assert(!p(fss[i]));
    }
}

proof fn lemma_first_index_none(fss: Seq<Filesystem>, p: spec_fn(Filesystem) -> bool)
    requires
        forall|j: int| 0 <= j < fss.len() ==> !p(#[trigger] fss[j]),
    ensures
        first_index(fss, p) is None,
{
    if exists|i: int| first_at(fss, p, i) {
        let k = choose|k: int| first_at(fss, p, k);
        assert(p(fss[k]));
    }
}

impl DirectoryHandle {
    pub fn read_entries(&self) -> (r: &[FileEntry])
        ensures
            r@ == self.entries@,
    {
        self.entries.as_slice()
    }

    pub fn get_path(&self) -> (r: &str)
        ensures
            r@ == self.path@,
    {
        self.path.as_str()
    }

    /// Lists the directory again from the filesystem it belongs to.
    pub fn refresh(&mut self, fs_manager: &FilesystemManager) -> (r: Result<(), &'static str>)
        requires
            fs_manager.wf(),
        ensures
            final(self).path == old(self).path,
            final(self).fs_name == old(self).fs_name,
            match first_index(fs_manager.filesystems(), named(old(self).fs_name@)) {
                None => r == Err::<(), &'static str>("Filesystem not found") && *final(self) == *old(self),
                Some(i) => {
                    let fs = fs_manager.filesystems()[i];
                    match r {
                        Ok(_) => directory_opened(fs.model(), fs.root_handle(), old(self).path@, Ok(*final(self))),
                        Err(e) => directory_opened(fs.model(), fs.root_handle(), old(self).path@, Err(e))
                            && *final(self) == *old(self),
                    }
                },
            },
    {
        let idx = fs_manager.find_named(self.fs_name.as_str());
        match idx {
            None => Err("Filesystem not found"),
            Some(i) => {
                let fs = &fs_manager.filesystems[i];
                let new_dir = match fs.open_directory(self.path.as_str()) {
                    Ok(d) => d,
                    Err(e) => {
                        return Err(e);
                    },
                };
                self.entries = new_dir.entries;
                self.inode_id = new_dir.inode_id;
                Ok(())
            },
        }
    }
}

/// Whether a read through `h` in `fss` would compute a test pattern on a
/// handle whose position lies past its size.
pub open spec fn read_needs_position(fss: Seq<Filesystem>, h: FileHandleView) -> bool {
    match first_index(fss, named(h.fs_name)) {
        Some(i) => fss[i].model().fs_type != FilesystemType::RamFs,
        None => false,
    }
}

/// The bytes of the test pattern that non-RAM filesystems read: each byte is
/// the low eight bits of its position in the file.
pub open spec fn pattern_into(position: u64, n: int, buf: Seq<u8>) -> Seq<u8> {
    Seq::new(buf.len(), |k: int| if k < n { ((position + k) % 256) as u8 } else { buf[k] })
}

/// How many bytes of the test pattern a read returns.
pub open spec fn pattern_count(h: FileHandleView, buf_len: nat) -> int {
    let rem = h.size - h.position;
    if buf_len < rem { buf_len as int } else { rem }
}

/// The handle `h` moved on by `n` bytes.
pub open spec fn advanced(h: FileHandleView, n: int) -> FileHandleView {
    FileHandleView { position: (h.position + n) as u64, ..h }
}

/// The handle `h` moved on by `n` bytes after a write, its size grown to
/// the new position where that lies further.
pub open spec fn advanced_grown(h: FileHandleView, n: int) -> FileHandleView {
    let p = h.position + n;
    FileHandleView { position: p as u64, size: if p > h.size { p as u64 } else { h.size }, ..h }
}

/// The filesystems are the same apart from timestamps.
/// The inode timestamps after inode `id` is marked modified: its
/// modification time is some clock reading, everything else as before, and
/// nothing changes for an id with no inode.
pub open spec fn touched(before: Seq<(u64, u64, u64)>, after: Seq<(u64, u64, u64)>, id: u64) -> bool {
    if id < before.len() {
        exists|t: u64| after == before.update(id as int, (before[id as int].0, t, before[id as int].2))
    } else {
        after == before
    }
}

pub open spec fn same_filesystems(a: Seq<Filesystem>, b: Seq<Filesystem>) -> bool {
    &&& a.len() == b.len()
    &&& forall|i: int| 0 <= i < a.len() ==> {
        &&& (#[trigger] a[i]).model() == b[i].model()
        &&& a[i].root_handle() == b[i].root_handle()
        &&& a[i].wf() == b[i].wf()
    }
}

/// What a write through `h` of `len` bytes needs to stay within the
/// machine's integers.
pub open spec fn write_fits(fss: Seq<Filesystem>, h: FileHandleView, len: nat) -> bool {
    &&& h.position + len <= u64::MAX
    &&& match first_index(fss, named(h.fs_name)) {
        Some(i) => fss[i].model().fs_type == FilesystemType::RamFs ==> h.position + len <= usize::MAX,
        None => true,
    }
}

impl FileHandle {
    pub fn new(path: String, size: u64, readonly: bool, fs_name: String) -> (r: Self)
        ensures
            r@ == (FileHandleView {
                path: path@,
                size,
                position: 0,
                readonly,
                fs_name: fs_name@,
                inode_id: None,
                closed: false,
            }),
    {
        Self { path, size, position: 0, readonly, fs_name, inode_id: None, closed: false }
    }

    /// Reads from the current position into `buffer` and moves the position on.
    pub fn read(&mut self, buffer: &mut [u8], fs_manager: &mut FilesystemManager) -> (r: Result<usize, &'static str>)
        requires
            old(fs_manager).wf(),
            read_needs_position(old(fs_manager).filesystems(), old(self)@) ==> old(self)@.position <= old(self)@.size,
        ensures
            final(fs_manager).wf(),
            final(fs_manager).current_directory() == old(fs_manager).current_directory(),
            same_filesystems(final(fs_manager).filesystems(), old(fs_manager).filesystems()),
            match first_index(old(fs_manager).filesystems(), named(old(self)@.fs_name)) {
                None => r == Err::<usize, &'static str>("Filesystem not found")
                    && final(self)@ == old(self)@ && final(buffer)@ == old(buffer)@,
                Some(i) => {
                    let m = old(fs_manager).filesystems()[i].model();
                    if m.fs_type == FilesystemType::RamFs {
                        if old(self)@.inode_id is None || m.ram is None {
                            r == Err::<usize, &'static str>("Invalid file handle")
                                && final(self)@ == old(self)@ && final(buffer)@ == old(buffer)@
                        } else {
                            let id = old(self)@.inode_id.unwrap();
                            let rm = m.ram.unwrap();
                            match read_error(rm, id, old(self)@.position, old(buffer)@.len()) {
                                Some(e) => r == Err::<usize, &'static str>(e)
                                    && final(self)@ == old(self)@ && final(buffer)@ == old(buffer)@,
                                None => {
                                    let n = read_count(rm.inodes[id as int].size, old(self)@.position, old(buffer)@.len());
                                    &&& r == Ok::<usize, &'static str>(n as usize)
                                    &&& final(buffer)@ == read_into(rm.inodes[id as int].data.unwrap(), old(self)@.position, n, old(buffer)@)
                                    &&& final(self)@ == advanced(old(self)@, n)
                                },
                            }
                        }
                    } else {
                        let n = pattern_count(old(self)@, old(buffer)@.len());
                        &&& r == Ok::<usize, &'static str>(n as usize)
                        &&& final(buffer)@ == pattern_into(old(self)@.position, n, old(buffer)@)
                        &&& final(self)@ == advanced(old(self)@, n)
                    }
                },
            },
    {
        let idx = match fs_manager.find_named(self.fs_name.as_str()) {
            Some(i) => i,
            None => {
                return Err("Filesystem not found");
            },
        };
        proof {
            assert(fs_manager.filesystems()[idx as int].wf());
        }
        if fs_manager.filesystems[idx].fs_type == FilesystemType::RamFs {
            let inode_id = match self.inode_id {
                Some(id) => id,
                None => {
                    return Err("Invalid file handle");
                },
            };
            if fs_manager.filesystems[idx].ram_fs.is_none() {
                return Err("Invalid file handle");
            }
            let buffer_len = buffer.len();
            let bytes_read = match fs_manager.read_at(idx, inode_id, buffer, self.position) {
                Ok(n) => n,
                Err(e) => {
                    return Err(e);
                },
            };
            proof {
                let m = old(fs_manager).filesystems()[idx as int].model().ram.unwrap();
                let n = read_count(m.inodes[inode_id as int].size, self.position, old(buffer)@.len());
                assert(n <= buffer_len);
            }
            self.position = self.position + bytes_read as u64;
            Ok(bytes_read)
        } else {
            let rem: u64 = self.size - self.position;
            let to_read: usize = if (buffer.len() as u64) < rem { buffer.len() } else { rem as usize };
            if to_read == 0 {
                assert(buffer@ =~= pattern_into(self.position, 0, buffer@));
                return Ok(0);
            }
            fill_pattern(buffer, self.position, to_read);
            self.position = self.position + to_read as u64;
            Ok(to_read)
        }
    }

    /// Writes `buffer` at the current position and moves the position on,
    /// growing the recorded size where the write ends past it.
    pub fn write(&mut self, buffer: &[u8], fs_manager: &mut FilesystemManager) -> (r: Result<usize, &'static str>)
        requires
            old(fs_manager).wf(),
            write_fits(old(fs_manager).filesystems(), old(self)@, buffer@.len()),
        ensures
            final(fs_manager).wf(),
            final(fs_manager).current_directory() == old(fs_manager).current_directory(),
            final(fs_manager).filesystems().len() == old(fs_manager).filesystems().len(),
            if old(self)@.readonly {
                r == Err::<usize, &'static str>("File is readonly") && final(self)@ == old(self)@
                    && final(fs_manager).filesystems() == old(fs_manager).filesystems()
            } else {
                match first_index(old(fs_manager).filesystems(), named(old(self)@.fs_name)) {
                    None => r == Err::<usize, &'static str>("Filesystem not found")
                        && final(self)@ == old(self)@ && final(fs_manager).filesystems() == old(fs_manager).filesystems(),
                    Some(i) => {
                        let fs = old(fs_manager).filesystems()[i];
                        let m = fs.model();
                        if m.readonly {
                            r == Err::<usize, &'static str>("Filesystem is readonly") && final(self)@ == old(self)@
                                && final(fs_manager).filesystems() == old(fs_manager).filesystems()
                        } else if m.fs_type == FilesystemType::RamFs {
                            if old(self)@.inode_id is None || m.ram is None {
                                r == Err::<usize, &'static str>("Invalid file handle") && final(self)@ == old(self)@
                                    && final(fs_manager).filesystems() == old(fs_manager).filesystems()
                            } else {
                                let id = old(self)@.inode_id.unwrap();
                                let after = final(fs_manager).filesystems()[i];
                                &&& final(fs_manager).filesystems() == old(fs_manager).filesystems().update(i, after)
                                &&& after.root_handle() == fs.root_handle()
                                &&& match write_error(m.ram.unwrap(), id) {
                                    Some(e) => r == Err::<usize, &'static str>(e) && final(self)@ == old(self)@
                                        && after.model() == m,
                                    None => r == Ok::<usize, &'static str>(buffer@.len() as usize)
                                        && final(self)@ == advanced_grown(old(self)@, buffer@.len() as int)
                                        && after.model() == (FsModel {
                                            ram: Some(written_model(m.ram.unwrap(), id, buffer@, old(self)@.position)),
                                            ..m
                                        }),
                                }
                            }
                        } else {
                            &&& r == Ok::<usize, &'static str>(buffer@.len() as usize)
                            &&& final(self)@ == advanced_grown(old(self)@, buffer@.len() as int)
                            &&& final(fs_manager).filesystems() == old(fs_manager).filesystems()
                        }
                    },
                }
            },
    {
        if self.readonly {
            return Err("File is readonly");
        }
        let idx = match fs_manager.find_named(self.fs_name.as_str()) {
            Some(i) => i,
            None => {
                return Err("Filesystem not found");
            },
        };
        proof {
            assert(fs_manager.filesystems()[idx as int].wf());
        }
        if fs_manager.filesystems[idx].readonly {
            return Err("Filesystem is readonly");
        }
        if fs_manager.filesystems[idx].fs_type == FilesystemType::RamFs {
            let inode_id = match self.inode_id {
                Some(id) => id,
                None => {
                    return Err("Invalid file handle");
                },
            };
            if fs_manager.filesystems[idx].ram_fs.is_none() {
                return Err("Invalid file handle");
            }
            let bytes_written = match fs_manager.write_at(idx, inode_id, buffer, self.position) {
                Ok(n) => n,
                Err(e) => {
                    return Err(e);
                },
            };
            self.position = self.position + bytes_written as u64;
            if self.position > self.size {
                self.size = self.position;
            }
            Ok(bytes_written)
        } else {
            let to_write = buffer.len();
            self.position = self.position + to_write as u64;
            if self.position > self.size {
                self.size = self.position;
            }
            Ok(to_write)
        }
    }

    pub fn seek(&mut self, position: u64) -> (r: Result<(), &'static str>)
        ensures
            position > old(self)@.size ==> r == Err::<(), &'static str>("Seek position beyond file size")
                && final(self)@ == old(self)@,
            position <= old(self)@.size ==> r == Ok::<(), &'static str>(())
                && final(self)@ == (FileHandleView { position, ..old(self)@ }),
    {
        if position > self.size {
            return Err("Seek position beyond file size");
        }
        self.position = position;
        Ok(())
    }

    pub fn get_size(&self) -> (r: u64)
        ensures
            r == self@.size,
    {
        self.size
    }

    pub fn get_position(&self) -> (r: u64)
        ensures
            r == self@.position,
    {
        self.position
    }

    /// Closes the handle; a handle opened for writing on a RAM filesystem
    /// stamps its file's modification time.
    pub fn close(&mut self, fs_manager: &mut FilesystemManager) -> (r: Result<(), &'static str>)
        requires
            old(fs_manager).wf(),
        ensures
            r is Ok,
            final(self)@ == (FileHandleView { closed: true, ..old(self)@ }),
            final(fs_manager).wf(),
            final(fs_manager).current_directory() == old(fs_manager).current_directory(),
            same_filesystems(final(fs_manager).filesystems(), old(fs_manager).filesystems()),
    {
        if self.closed {
            return Ok(());
        }
        if !self.readonly {
            match fs_manager.find_named(self.fs_name.as_str()) {
                Some(idx) => {
                    if fs_manager.filesystems[idx].fs_type == FilesystemType::RamFs {
                        match self.inode_id {
                            Some(id) => {
                                fs_manager.touch_at(idx, id);
                            },
                            None => {},
                        }
                    }
                },
                None => {},
            }
        }
        self.closed = true;
        Ok(())
    }
}

/// Writes the test pattern into the first `n` bytes of `buffer`.
fn fill_pattern(buffer: &mut [u8], position: u64, n: usize)
    requires
        0 < n <= old(buffer)@.len(),
    ensures
        final(buffer)@ == pattern_into(position, n as int, old(buffer)@),
{
    let mut i: usize = 0;
    while i < n
        invariant
            i <= n <= buffer@.len(),
            buffer@.len() == old(buffer)@.len(),
            forall|k: int| 0 <= k < i ==> buffer@[k] == ((position + k) % 256) as u8,
            forall|k: int| i <= k < buffer@.len() ==> buffer@[k] == old(buffer)@[k],
        decreases n - i,
    {
        let b: u8 = ((position % 256) as u8).wrapping_add((i % 256) as u8);
        assert(b == ((position + i) % 256) as u8) by (nonlinear_arith)
            requires
                b == (((position % 256) as u8) + ((i % 256) as u8)) % 256,
        {
        }
        buffer[i] = b;
        i += 1;
    }
    assert(buffer@ =~= pattern_into(position, n as int, old(buffer)@));
}

impl FilesystemManager {
    pub closed spec fn filesystems(&self) -> Seq<Filesystem> {
        self.filesystems@
    }

    pub closed spec fn current_directory(&self) -> Seq<char> {
        self.current_directory@
    }

    /// Every managed filesystem is well formed.
    pub open spec fn wf(&self) -> bool {
        forall|i: int| 0 <= i < self.filesystems().len() ==> (#[trigger] self.filesystems()[i]).wf()
    }

    pub fn new() -> (r: Self)
        ensures
            r.wf(),
            r.filesystems() == Seq::<Filesystem>::empty(),
            r.current_directory() == "/"@,
    {
        Self { filesystems: Vec::new(), current_directory: string_from_str("/") }
    }

    /// The index of the first filesystem named `name`.
    fn find_named(&self, name: &str) -> (r: Option<usize>)
        ensures
            match r {
                Some(k) => first_index(self.filesystems(), named(name@)) == Some(k as int),
                None => first_index(self.filesystems(), named(name@)) is None,
            },
    {
        let mut i: usize = 0;
        while i < self.filesystems.len()
            invariant
                i <= self.filesystems@.len(),
                forall|j: int| 0 <= j < i ==> !named(name@)(#[trigger] self.filesystems@[j]),
            decreases self.filesystems@.len() - i,
        {
            if str_equal(self.filesystems[i].name.as_str(), name) {
                proof {
                    lemma_first_index_is(self.filesystems@, named(name@), i as int);
                }
                return Some(i);
            }
            i += 1;
        }
        proof {
            lemma_first_index_none(self.filesystems@, named(name@));
        }
        None
    }

    /// The index of the first mounted filesystem.
    fn find_mounted(&self) -> (r: Option<usize>)
        ensures
            match r {
                Some(k) => first_index(self.filesystems(), mounted()) == Some(k as int),
                None => first_index(self.filesystems(), mounted()) is None,
            },
    {
        let mut i: usize = 0;
        while i < self.filesystems.len()
            invariant
                i <= self.filesystems@.len(),
                forall|j: int| 0 <= j < i ==> !mounted()(#[trigger] self.filesystems@[j]),
            decreases self.filesystems@.len() - i,
        {
            if self.filesystems[i].mounted {
                proof {
                    lemma_first_index_is(self.filesystems@, mounted(), i as int);
                }
                return Some(i);
            }
            i += 1;
        }
        proof {
            lemma_first_index_none(self.filesystems@, mounted());
        }
        None
    }

    /// Reads through the RAM filesystem of filesystem `idx`.
    fn read_at(&mut self, idx: usize, id: u64, buffer: &mut [u8], offset: u64) -> (r: Result<usize, &'static str>)
        requires
            old(self).wf(),
            idx < old(self).filesystems().len(),
            old(self).filesystems()[idx as int].model().ram is Some,
        ensures
            final(self).wf(),
            final(self).current_directory() == old(self).current_directory(),
            same_filesystems(final(self).filesystems(), old(self).filesystems()),
            match read_error(old(self).filesystems()[idx as int].model().ram.unwrap(), id, offset, old(buffer)@.len()) {
                Some(e) => r == Err::<usize, &'static str>(e) && final(buffer)@ == old(buffer)@,
                None => {
                    let m = old(self).filesystems()[idx as int].model().ram.unwrap();
                    let n = read_count(m.inodes[id as int].size, offset, old(buffer)@.len());
                    &&& r == Ok::<usize, &'static str>(n as usize)
                    &&& final(buffer)@ == read_into(m.inodes[id as int].data.unwrap(), offset, n, old(buffer)@)
                },
            },
    {
        assert(self.filesystems@[idx as int].wf());
        let ghost before = self.filesystems@;
        let result = self.filesystems[idx].read_inode(id, buffer, offset);
        assert(forall|j: int| 0 <= j < before.len() && j != idx ==> self.filesystems@[j] == before[j]);
        result
    }

    /// Writes through the RAM filesystem of filesystem `idx`.
    fn write_at(&mut self, idx: usize, id: u64, buffer: &[u8], offset: u64) -> (r: Result<usize, &'static str>)
        requires
            old(self).wf(),
            idx < old(self).filesystems().len(),
            old(self).filesystems()[idx as int].model().ram is Some,
            offset + buffer@.len() <= usize::MAX,
        ensures
            final(self).wf(),
            final(self).current_directory() == old(self).current_directory(),
            final(self).filesystems() == old(self).filesystems().update(idx as int, final(self).filesystems()[idx as int]),
            final(self).filesystems()[idx as int].root_handle() == old(self).filesystems()[idx as int].root_handle(),
            ({
                let m = old(self).filesystems()[idx as int].model();
                let after = final(self).filesystems()[idx as int].model();
                match write_error(m.ram.unwrap(), id) {
                    Some(e) => r == Err::<usize, &'static str>(e) && after == m,
                    None => r == Ok::<usize, &'static str>(buffer@.len() as usize)
                        && after == (FsModel { ram: Some(written_model(m.ram.unwrap(), id, buffer@, offset)), ..m }),
                }
            }),
    {
        assert(self.filesystems@[idx as int].wf());
        let ghost before = self.filesystems@;
        let result = self.filesystems[idx].write_inode(id, buffer, offset);
        assert(self.filesystems@ =~= before.update(idx as int, self.filesystems@[idx as int]));
        result
    }

    /// Stamps the modification time of inode `id` of filesystem `idx`.
    fn touch_at(&mut self, idx: usize, id: u64)
        requires
            old(self).wf(),
            idx < old(self).filesystems().len(),
        ensures
            final(self).wf(),
            final(self).current_directory() == old(self).current_directory(),
            same_filesystems(final(self).filesystems(), old(self).filesystems()),
            touched(old(self).filesystems()[idx as int].stamps(), final(self).filesystems()[idx as int].stamps(), id),
            forall|j: int|
                0 <= j < old(self).filesystems().len() && j != idx ==> #[trigger] final(self).filesystems()[j]
                    == old(self).filesystems()[j],
    {
        assert(self.filesystems@[idx as int].wf());
        let ghost before = self.filesystems@;
        self.filesystems[idx].touch_inode(id);
        assert(forall|j: int| 0 <= j < before.len() && j != idx ==> self.filesystems@[j] == before[j]);
    }
}


/// The filesystem type that the magic bytes of a first sector name.
pub open spec fn sector_kind(s: Seq<u8>) -> FilesystemType {
    if s.subrange(54, 58) == seq![0x46u8, 0x41u8, 0x54u8, 0x31u8] {
        FilesystemType::Fat16
    } else if s.subrange(82, 90) == seq![0x46u8, 0x41u8, 0x54u8, 0x33u8, 0x32u8, 0x20u8, 0x20u8, 0x20u8] {
        FilesystemType::Fat32
    } else if s.subrange(3, 7) == seq![0x4eu8, 0x54u8, 0x46u8, 0x53u8] {
        FilesystemType::Ntfs
    } else if s.subrange(1, 6) == seq![0x43u8, 0x44u8, 0x30u8, 0x30u8, 0x31u8] {
        FilesystemType::Iso9660
    } else {
        FilesystemType::Unknown
    }
}

/// A first sector long enough for every magic that is looked at: the FAT16
/// label, and the FAT32 label unless the FAT16 one matched.
pub open spec fn sector_readable(s: Seq<u8>) -> bool {
    &&& s.len() >= 58
    &&& (s.subrange(54, 58) == seq![0x46u8, 0x41u8, 0x54u8, 0x31u8] || s.len() >= 90)
}

/// `data[start..start + pattern.len()]` holds `pattern`.
fn bytes_at(data: &[u8], start: usize, pattern: &[u8]) -> (r: bool)
    requires
        start + pattern@.len() <= data@.len(),
    ensures
        r == (data@.subrange(start as int, start + pattern@.len()) == pattern@),
{
    let data_len = data.len();
    let mut i: usize = 0;
    while i < pattern.len()
        invariant
            i <= pattern@.len(),
            data_len == data@.len(),
            start + pattern@.len() <= data@.len(),
            forall|k: int| 0 <= k < i ==> data@[start + k] == pattern@[k],
        decreases pattern@.len() - i,
    {
        if data[start + i] != pattern[i] {
            assert(data@.subrange(start as int, start + pattern@.len())[i as int] != pattern@[i as int]);
            return false;
        }
        i += 1;
    }
    assert(data@.subrange(start as int, start + pattern@.len()) =~= pattern@);
    true
}

impl FilesystemManager {
    /// Names the filesystem on a device from its first sector.
    pub fn detect_filesystem_type(&self, sector: &[u8]) -> (r: Result<FilesystemType, &'static str>)
        requires
            sector_readable(sector@),
        ensures
            r == Ok::<FilesystemType, &'static str>(sector_kind(sector@)),
    {
        let fat16: [u8; 4] = [0x46, 0x41, 0x54, 0x31];
        if bytes_at(sector, 54, fat16.as_slice()) {
            assert(fat16@ =~= seq![0x46u8, 0x41u8, 0x54u8, 0x31u8]);
            return Ok(FilesystemType::Fat16);
        }
        assert(fat16@ =~= seq![0x46u8, 0x41u8, 0x54u8, 0x31u8]);
        let fat32: [u8; 8] = [0x46, 0x41, 0x54, 0x33, 0x32, 0x20, 0x20, 0x20];
        assert(fat32@ =~= seq![0x46u8, 0x41u8, 0x54u8, 0x33u8, 0x32u8, 0x20u8, 0x20u8, 0x20u8]);
        if bytes_at(sector, 82, fat32.as_slice()) {
            return Ok(FilesystemType::Fat32);
        }
        let ntfs: [u8; 4] = [0x4e, 0x54, 0x46, 0x53];
        assert(ntfs@ =~= seq![0x4eu8, 0x54u8, 0x46u8, 0x53u8]);
        if bytes_at(sector, 3, ntfs.as_slice()) {
            return Ok(FilesystemType::Ntfs);
        }
        let iso: [u8; 5] = [0x43, 0x44, 0x30, 0x30, 0x31];
        assert(iso@ =~= seq![0x43u8, 0x44u8, 0x30u8, 0x30u8, 0x31u8]);
        if bytes_at(sector, 1, iso.as_slice()) {
            return Ok(FilesystemType::Iso9660);
        }
        Ok(FilesystemType::Unknown)
    }

    /// Names the filesystem in data read from a partition; no signature is
    /// looked for yet, so the type is always `Unknown`.
    fn detect_filesystem_type_from_data(&self, data: &[u8]) -> (r: Result<FilesystemType, &'static str>)
        ensures
            r == Ok::<FilesystemType, &'static str>(FilesystemType::Unknown),
    {
        Ok(FilesystemType::Unknown)
    }

    /// Adds a filesystem for a partition of `device_name` at `mount_point`,
    /// from the first sectors of the partition in `data`.
    pub fn mount_partition(&mut self, data: &[u8], device_name: &str, mount_point: &str) -> (r: Result<(), &'static str>)
        requires
            old(self).wf(),
        ensures
            r is Ok,
            final(self).wf(),
            final(self).current_directory() == old(self).current_directory(),
            final(self).filesystems().len() == old(self).filesystems().len() + 1,
            final(self).filesystems().drop_last() == old(self).filesystems(),
            ({
                let fs = final(self).filesystems().last();
                &&& fs.model().name == device_name@ + seq![':'] + mount_point@
                &&& fs.model().fs_type == FilesystemType::Unknown
                &&& fs.model().device == device_name@
                &&& !fs.model().readonly
                &&& fs.model().mounted
                &&& fs.model().ram is None
                &&& fs.root_handle() is Some
                &&& placeholder_root_entries(fs.root_handle().unwrap().entries@)
            }),
    {
        let fs_type = match self.detect_filesystem_type_from_data(data) {
            Ok(t) => t,
            Err(e) => {
                return Err(e);
            },
        };
        let mut name = string_from_str(device_name);
        string_push_str(&mut name, ":");
        string_push_str(&mut name, mount_point);
        proof {
            reveal_strlit(":");
        }
        assert(name@ == device_name@ + seq![':'] + mount_point@);
        let fs = Filesystem::new(name, fs_type, string_from_str(device_name), false);
        self.add_filesystem(fs)
    }

    /// Mounts `fs` and adds it at the end of the list.
    pub fn add_filesystem(&mut self, fs: Filesystem) -> (r: Result<(), &'static str>)
        requires
            old(self).wf(),
            fs.wf(),
        ensures
            r is Ok,
            final(self).wf(),
            final(self).current_directory() == old(self).current_directory(),
            final(self).filesystems().len() == old(self).filesystems().len() + 1,
            final(self).filesystems().drop_last() == old(self).filesystems(),
            mounted_from(fs, final(self).filesystems().last()),
    {
        let mut fs = fs;
        match fs.mount() {
            Ok(()) => {},
            Err(e) => {
                return Err(e);
            },
        }
        let ghost mounted_fs = fs;
        self.filesystems.push(fs);
        assert(self.filesystems@ =~= old(self).filesystems@.push(mounted_fs));
        assert(self.filesystems@.drop_last() =~= old(self).filesystems@);
        assert forall|j: int| 0 <= j < self.filesystems().len() implies (#[trigger] self.filesystems()[j]).wf() by {
            if j < old(self).filesystems().len() {
                assert(old(self).filesystems()[j].wf());
            }
        }
        Ok(())
    }

    /// The first filesystem named `name`.
    pub fn get_filesystem(&self, name: &str) -> (r: Option<&Filesystem>)
        ensures
            match first_index(self.filesystems(), named(name@)) {
                Some(i) => r is Some && *r->Some_0 == self.filesystems()[i],
                None => r is None,
            },
    {
        match self.find_named(name) {
            Some(i) => Some(&self.filesystems[i]),
            None => None,
        }
    }

    /// The first filesystem named `name`, to be changed in place.
    pub fn get_filesystem_mut(&mut self, name: &str) -> (r: Option<&mut Filesystem>)
        ensures
            final(self).current_directory() == old(self).current_directory(),
            match first_index(old(self).filesystems(), named(name@)) {
                Some(i) => r is Some && *r->Some_0 == old(self).filesystems()[i]
                    && final(self).filesystems() == old(self).filesystems().update(i, *final(r->Some_0)),
                None => r is None && final(self).filesystems() == old(self).filesystems(),
            },
    {
        match self.find_named(name) {
            Some(i) => Some(&mut self.filesystems[i]),
            None => None,
        }
    }

    pub fn get_filesystems(&self) -> (r: &[Filesystem])
        ensures
            r@ == self.filesystems(),
    {
        self.filesystems.as_slice()
    }

    pub fn set_current_directory(&mut self, path: String)
        ensures
            final(self).current_directory() == path@,
            final(self).filesystems() == old(self).filesystems(),
    {
        self.current_directory = path;
    }

    pub fn get_current_directory(&self) -> (r: &str)
        ensures
            r@ == self.current_directory(),
    {
        self.current_directory.as_str()
    }

    /// Creates a directory on the first mounted filesystem.
    pub fn create_directory(&mut self, path: &str) -> (r: Result<(), &'static str>)
        requires
            old(self).wf(),
        ensures
            final(self).wf(),
            final(self).current_directory() == old(self).current_directory(),
            match first_index(old(self).filesystems(), mounted()) {
                None => r == Err::<(), &'static str>("No mounted filesystem found")
                    && final(self).filesystems() == old(self).filesystems(),
                Some(i) => final(self).filesystems() == old(self).filesystems().update(i, final(self).filesystems()[i])
                    && directory_created(old(self).filesystems()[i], final(self).filesystems()[i], path@, r),
            },
    {
        match self.find_mounted() {
            Some(i) => {
                assert(self.filesystems@[i as int].wf());
                let ghost before = self.filesystems@;
                let r = self.filesystems[i].create_directory(path);
                assert(self.filesystems@ =~= before.update(i as int, self.filesystems@[i as int]));
                r
            },
            None => Err("No mounted filesystem found"),
        }
    }

    /// Creates an empty file on the first mounted filesystem.
    pub fn create_file(&mut self, path: &str) -> (r: Result<(), &'static str>)
        requires
            old(self).wf(),
        ensures
            final(self).wf(),
            final(self).current_directory() == old(self).current_directory(),
            match first_index(old(self).filesystems(), mounted()) {
                None => r == Err::<(), &'static str>("No mounted filesystem found")
                    && final(self).filesystems() == old(self).filesystems(),
                Some(i) => final(self).filesystems() == old(self).filesystems().update(i, final(self).filesystems()[i])
                    && file_created(old(self).filesystems()[i], final(self).filesystems()[i], path@, r),
            },
    {
        match self.find_mounted() {
            Some(i) => {
                assert(self.filesystems@[i as int].wf());
                let ghost before = self.filesystems@;
                let r = self.filesystems[i].create_file(path);
                assert(self.filesystems@ =~= before.update(i as int, self.filesystems@[i as int]));
                r
            },
            None => Err("No mounted filesystem found"),
        }
    }

    /// Removes an entry from the first mounted filesystem.
    pub fn delete_entry(&mut self, path: &str) -> (r: Result<(), &'static str>)
        requires
            old(self).wf(),
        ensures
            final(self).wf(),
            final(self).current_directory() == old(self).current_directory(),
            match first_index(old(self).filesystems(), mounted()) {
                None => r == Err::<(), &'static str>("No mounted filesystem found")
                    && final(self).filesystems() == old(self).filesystems(),
                Some(i) => final(self).filesystems() == old(self).filesystems().update(i, final(self).filesystems()[i])
                    && entry_deleted(old(self).filesystems()[i], final(self).filesystems()[i], path@, r),
            },
    {
        match self.find_mounted() {
            Some(i) => {
                assert(self.filesystems@[i as int].wf());
                let ghost before = self.filesystems@;
                let r = self.filesystems[i].delete_entry(path);
                assert(self.filesystems@ =~= before.update(i as int, self.filesystems@[i as int]));
                r
            },
            None => Err("No mounted filesystem found"),
        }
    }

    /// Opens a file on the first mounted filesystem.
    pub fn open_file(&self, path: &str, readonly: bool) -> (r: Result<FileHandle, &'static str>)
        requires
            self.wf(),
        ensures
            match first_index(self.filesystems(), mounted()) {
                None => r == Err::<FileHandle, &'static str>("No mounted filesystem found"),
                Some(i) => file_opened(self.filesystems()[i].model(), path@, readonly, r),
            },
    {
        match self.find_mounted() {
            Some(i) => {
                assert(self.filesystems@[i as int].wf());
                self.filesystems[i].open_file(path, readonly)
            },
            None => Err("No mounted filesystem found"),
        }
    }

    /// Opens a directory on the first mounted filesystem.
    pub fn open_directory(&self, path: &str) -> (r: Result<DirectoryHandle, &'static str>)
        requires
            self.wf(),
        ensures
            match first_index(self.filesystems(), mounted()) {
                None => r == Err::<DirectoryHandle, &'static str>("No mounted filesystem found"),
                Some(i) => directory_opened(self.filesystems()[i].model(), self.filesystems()[i].root_handle(), path@, r),
            },
    {
        match self.find_mounted() {
            Some(i) => {
                assert(self.filesystems@[i as int].wf());
                self.filesystems[i].open_directory(path)
            },
            None => Err("No mounted filesystem found"),
        }
    }
}

/// Marks every managed filesystem as no longer mounted.
pub fn shutdown(fs_manager: &mut FilesystemManager)
    requires
        old(fs_manager).wf(),
    ensures
        final(fs_manager).wf(),
        final(fs_manager).current_directory() == old(fs_manager).current_directory(),
        final(fs_manager).filesystems().len() == old(fs_manager).filesystems().len(),
        forall|i: int| 0 <= i < old(fs_manager).filesystems().len() ==> {
            &&& (#[trigger] final(fs_manager).filesystems()[i]).model()
                == (FsModel { mounted: false, ..old(fs_manager).filesystems()[i].model() })
            &&& final(fs_manager).filesystems()[i].root_handle() == old(fs_manager).filesystems()[i].root_handle()
        },
{
    let mut i: usize = 0;
    while i < fs_manager.filesystems.len()
        invariant
            i <= fs_manager.filesystems@.len(),
            fs_manager.filesystems@.len() == old(fs_manager).filesystems@.len(),
            fs_manager.current_directory == old(fs_manager).current_directory,
            fs_manager.wf(),
            forall|j: int| 0 <= j < i ==> {
                &&& (#[trigger] fs_manager.filesystems@[j]).model()
                    == (FsModel { mounted: false, ..old(fs_manager).filesystems@[j].model() })
                &&& fs_manager.filesystems@[j].root_handle() == old(fs_manager).filesystems@[j].root_handle()
            },
            forall|j: int| i <= j < fs_manager.filesystems@.len() ==> fs_manager.filesystems@[j] == old(fs_manager).filesystems@[j],
        decreases fs_manager.filesystems@.len() - i,
    {
        assert(fs_manager.filesystems()[i as int].wf());
        let ghost before = fs_manager.filesystems@;
        fs_manager.filesystems[i].shutdown();
        assert(fs_manager.filesystems@ =~= before.update(i as int, fs_manager.filesystems@[i as int]));
        i += 1;
    }
}


/// The directories that `init` lays out on the RAM filesystem, in order.
pub open spec fn setup_paths() -> Seq<Seq<char>> {
    seq![
        "/bin"@, "/etc"@, "/home"@, "/tmp"@, "/var"@, "/boot"@, "/lib"@, "/lib64"@, "/opt"@, "/srv"@, "/mnt"@,
        "/media"@, "/dev"@, "/proc"@, "/sys"@, "/run"@, "/usr"@, "/root"@, "/sysroot"@, "/tmpfs"@, "/sysfs"@,
        "/devfs"@, "/procfs"@, "/netfs"@, "/cgroup"@, "/debugfs"@, "/devpts"@, "/hugetlbfs"@, "/mqueue"@,
        "/pstore"@, "/tracefs"@, "/configfs"@, "/securityfs"@, "/fusectl"@, "/selinuxfs"@, "/sys/kernel/debug"@,
        "/sys/kernel/security"@, "/sys/kernel/tracing"@, "/sys/kernel/cgroup"@, "/sys/kernel/hugepages"@,
        "/sys/kernel/mqueue"@,
    ]
}

/// The directories that `init` lays out on the RAM filesystem, in order.
fn directory_list() -> (r: Vec<&'static str>)
    ensures
        r@.len() == setup_paths().len(),
        forall|i: int| 0 <= i < r@.len() ==> (#[trigger] r@[i])@ == setup_paths()[i],
{
    let r = vec![
        "/bin", "/etc", "/home", "/tmp", "/var", "/boot", "/lib", "/lib64", "/opt", "/srv", "/mnt",
        "/media", "/dev", "/proc", "/sys", "/run", "/usr", "/root", "/sysroot", "/tmpfs", "/sysfs",
        "/devfs", "/procfs", "/netfs", "/cgroup", "/debugfs", "/devpts", "/hugetlbfs", "/mqueue",
        "/pstore", "/tracefs", "/configfs", "/securityfs", "/fusectl", "/selinuxfs", "/sys/kernel/debug",
        "/sys/kernel/security", "/sys/kernel/tracing", "/sys/kernel/cgroup", "/sys/kernel/hugepages",
        "/sys/kernel/mqueue",
    ];
    assert(r@.map_values(|p: &'static str| p@) =~= setup_paths());
    assert forall|i: int| 0 <= i < r@.len() implies (#[trigger] r@[i])@ == setup_paths()[i] by {
        assert(r@.map_values(|p: &'static str| p@)[i] == r@[i]@);
    }
    r
}

/// The RAM store after each of `paths` is created as a directory in turn,
/// or the error of the first creation refused.
pub open spec fn directories_created(m: RamModel, paths: Seq<Seq<char>>) -> Result<RamModel, &'static str>
    decreases paths.len(),
{
    if paths.len() == 0 {
        Ok(m)
    } else {
        match directories_created(m, paths.drop_last()) {
            Err(e) => Err(e),
            Ok(m1) => ram_create(m1, paths.last(), directory_model()),
        }
    }
}

/// Once a creation is refused, the later ones are not tried.
proof fn lemma_created_stays_refused(m: RamModel, paths: Seq<Seq<char>>, k: int, j: int, e: &'static str)
    requires
        0 <= k <= j <= paths.len(),
        directories_created(m, paths.take(k)) == Err::<RamModel, &'static str>(e),
    ensures
        directories_created(m, paths.take(j)) == Err::<RamModel, &'static str>(e),
    decreases j - k,
{
    if j > k {
        lemma_created_stays_refused(m, paths, k, j - 1, e);
        assert(paths.take(j).drop_last() =~= paths.take(j - 1));
    }
}

/// The RAM filesystem that `init` mounts, holding `ram`.
pub open spec fn ramfs_model(ram: RamModel) -> FsModel {
    FsModel {
        name: "ramfs"@,
        fs_type: FilesystemType::RamFs,
        device: "ram"@,
        mounted: true,
        readonly: false,
        ram: Some(ram),
    }
}

/// The root filesystem that `init` mounts where `sda` is present.
pub open spec fn rootfs_model() -> FsModel {
    FsModel { name: "root"@, fs_type: FilesystemType::Ext2, device: "sda"@, mounted: true, readonly: false, ram: None }
}

/// The greeting written to `/hello.txt`.
pub open spec fn greeting() -> Seq<u8> {
    "Hello, world from RAM filesystem!".spec_bytes()
}

/// What `init` makes of the RAM store: each directory of `setup_paths`
/// created in turn, then `/hello.txt` created, opened for writing and the
/// greeting written at its start; or the error of the first step refused.
pub open spec fn init_outcome() -> Result<RamModel, &'static str> {
    match directories_created(initial_ram_model(), setup_paths()) {
        Err(e) => Err(e),
        Ok(m1) => match ram_create(m1, "/hello.txt"@, file_model()) {
            Err(e) => Err(e),
            Ok(m2) => match open_file_outcome(ramfs_model(m2), "/hello.txt"@, false) {
                Err(e) => Err(e),
                Ok(opened) => match opened {
                    None => Err("Invalid file handle"),
                    Some(id) => match write_error(m2, id) {
                        Some(e) => Err(e),
                        None => Ok(written_model(m2, id, greeting(), 0)),
                    },
                },
            },
        },
    }
}

/// Builds the filesystem manager of a booting system: a mounted RAM
/// filesystem, a root filesystem on `sda` where that device is present, the
/// standard directories and a greeting file. The result is the manager
/// those steps leave, or the error of the first step refused (see
/// `init_outcome`).
pub fn init(sda_present: bool) -> (r: Result<FilesystemManager, &'static str>)
    ensures
        match init_outcome() {
            Err(e) => r == Err::<FilesystemManager, &'static str>(e),
            Ok(ram) => r matches Ok(m) && {
                &&& m.wf()
                &&& m.current_directory() == "/"@
                &&& m.filesystems().len() == if sda_present { 2int } else { 1int }
                &&& m.filesystems()[0].model() == ramfs_model(ram)
                &&& sda_present ==> m.filesystems()[1].model() == rootfs_model()
            },
        },
{
    let mut fs_manager = FilesystemManager::new();
    let ramfs = Filesystem::new(string_from_str("ramfs"), FilesystemType::RamFs, string_from_str("ram"), false);
    match fs_manager.add_filesystem(ramfs) {
        Ok(()) => {},
        Err(e) => {
            return Err(e);
        },
    }
    assert(fs_manager.filesystems()[0].model() == ramfs_model(initial_ram_model()));
    if sda_present {
        let fs = Filesystem::new(string_from_str("root"), FilesystemType::Ext2, string_from_str("sda"), false);
        match fs_manager.add_filesystem(fs) {
            Ok(()) => {},
            Err(e) => {
                return Err(e);
            },
        }
        assert(fs_manager.filesystems()[1].model() == rootfs_model());
    }
    let ghost n: int = if sda_present { 2int } else { 1int };
    let ghost paths = setup_paths();
    let dirs = directory_list();
    let mut k: usize = 0;
    assert(paths.take(0) =~= Seq::<Seq<char>>::empty());
    while k < dirs.len()
        invariant
            k <= dirs@.len(),
            dirs@.len() == paths.len(),
            paths == setup_paths(),
            forall|i: int| 0 <= i < dirs@.len() ==> (#[trigger] dirs@[i])@ == paths[i],
            fs_manager.wf(),
            fs_manager.current_directory() == "/"@,
            fs_manager.filesystems().len() == n,
            n == if sda_present { 2int } else { 1int },
            directories_created(initial_ram_model(), paths.take(k as int)) matches Ok(mk)
                && fs_manager.filesystems()[0].model() == ramfs_model(mk),
            sda_present ==> fs_manager.filesystems()[1].model() == rootfs_model(),
        decreases dirs@.len() - k,
    {
        let ghost before = fs_manager.filesystems();
        let ghost mk = directories_created(initial_ram_model(), paths.take(k as int))->Ok_0;
        proof {
            lemma_first_index_is(before, mounted(), 0);
            assert(paths.take(k + 1).drop_last() =~= paths.take(k as int));
            assert(paths.take(k + 1).last() == paths[k as int]);
        }
        match fs_manager.create_directory(dirs[k]) {
            Ok(()) => {},
            Err(e) => {
                proof {
                    lemma_created_stays_refused(initial_ram_model(), paths, k + 1, paths.len() as int, e);
                    assert(paths.take(paths.len() as int) =~= paths);
                }
                return Err(e);
            },
        }
        proof {
            if sda_present {
                assert(fs_manager.filesystems()[1] == before[1]);
            }
        }
        k += 1;
    }
    assert(paths.take(k as int) =~= paths);
    let ghost m1 = directories_created(initial_ram_model(), paths)->Ok_0;
    proof {
        lemma_first_index_is(fs_manager.filesystems(), mounted(), 0);
    }
    let ghost before_file = fs_manager.filesystems();
    match fs_manager.create_file("/hello.txt") {
        Ok(()) => {},
        Err(e) => {
            return Err(e);
        },
    }
    let ghost m2 = ram_create(m1, "/hello.txt"@, file_model())->Ok_0;
    assert(fs_manager.filesystems()[0].model() == ramfs_model(m2));
    proof {
        if sda_present {
            assert(fs_manager.filesystems()[1] == before_file[1]);
        }
        lemma_first_index_is(fs_manager.filesystems(), mounted(), 0);
    }
    let mut file = match fs_manager.open_file("/hello.txt", false) {
        Ok(f) => f,
        Err(e) => {
            return Err(e);
        },
    };
    let data: &[u8] = "Hello, world from RAM filesystem!".as_bytes();
    let data_len = data.len();
    assert(file@.position == 0);
    proof {
        lemma_first_index_is(fs_manager.filesystems(), named("ramfs"@), 0);
    }
    let ghost before_write = fs_manager.filesystems();
    match file.write(data, &mut fs_manager) {
        Ok(_) => {},
        Err(e) => {
            return Err(e);
        },
    }
    proof {
        if sda_present {
            assert(fs_manager.filesystems()[1] == before_write[1]);
        }
    }
    Ok(fs_manager)
}

} // verus!
