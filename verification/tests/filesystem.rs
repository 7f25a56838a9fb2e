use os_gaming::kernel::drivers::filesystem::{self, FileType, Filesystem, FilesystemManager, FilesystemType};

fn ramfs() -> Filesystem {
    let mut fs = Filesystem::new("ramfs".to_string(), FilesystemType::RamFs, "ram".to_string(), false);
    fs.mount().unwrap();
    fs
}

#[test]
fn a_new_file_opens() {
    let mut fs = ramfs();
    fs.create_file("/f").unwrap();
    let h = fs.open_file("/f", false).unwrap();
    assert_eq!(h.path, "/f");
    assert_eq!(h.size, 0);
    assert_eq!(h.position, 0);
    assert!(!h.readonly);
    assert_eq!(h.fs_name, "ramfs");
}

#[test]
fn listing_gives_each_child_its_own_type() {
    let mut fs = ramfs();
    fs.create_file("/b").unwrap();
    fs.create_directory("/a").unwrap();
    let d = fs.open_directory("/").unwrap();
    let names: Vec<&str> = d.entries.iter().map(|e| e.name.as_str()).collect();
    assert_eq!(names, vec![".", "..", "a", "b"]);
    assert_eq!(d.entries[2].file_type, FileType::Directory);
    assert_eq!(d.entries[3].file_type, FileType::Regular);
    assert_eq!(d.entries[3].size, 0);
}

#[test]
fn a_deleted_path_no_longer_opens() {
    let mut fs = ramfs();
    fs.create_file("/f").unwrap();
    fs.delete_entry("/f").unwrap();
    assert_eq!(fs.open_file("/f", true).err(), Some("Path component not found"));
    assert_eq!(fs.delete_entry("/f").unwrap_err(), "Entry does not exist");
}

#[test]
fn written_bytes_read_back() {
    let mut m = FilesystemManager::new();
    m.add_filesystem(Filesystem::new("ramfs".to_string(), FilesystemType::RamFs, "ram".to_string(), false))
        .unwrap();
    m.create_file("/hello.txt").unwrap();
    let mut w = m.open_file("/hello.txt", false).unwrap();
    assert_eq!(w.write(b"hi there", &mut m).unwrap(), 8);
    let mut r = m.open_file("/hello.txt", true).unwrap();
    let mut buf = [0u8; 16];
    assert_eq!(r.read(&mut buf, &mut m).unwrap(), 8);
    assert_eq!(&buf[..8], b"hi there");
}

#[test]
fn boot_set_up_stops_at_the_missing_sys_kernel_directory() {
    assert_eq!(filesystem::init(false).err(), Some("Path component not found"));
    assert_eq!(filesystem::init(true).err(), Some("Path component not found"));
}

#[test]
fn a_deleted_entry_leaves_the_listing() {
    let mut fs = ramfs();
    fs.create_directory("/d").unwrap();
    fs.create_file("/d/a").unwrap();
    fs.create_file("/d/b").unwrap();
    fs.delete_entry("/d/a").unwrap();
    let names: Vec<String> = fs.open_directory("/d").unwrap().entries.iter().map(|e| e.name.clone()).collect();
    assert_eq!(names, vec![".".to_string(), "..".to_string(), "b".to_string()]);
    assert_eq!(fs.open_file("/d/a", true).err(), Some("Path component not found"));
    fs.delete_entry("/d/b").unwrap();
    fs.delete_entry("/d").unwrap();
    assert_eq!(fs.open_directory("/d").err(), Some("Path component not found"));
}
