use geobacter_runtime::search::is_search_candidate;
use geobacter_runtime::dylib_paths::{check_expandable, exe_runpaths, expand_dynamic_tokens, expand_search_paths,
    runpaths_in};

fn expand(p: &str) -> String {
    let origin = b"/opt/app/bin".to_vec();
    let lib = b"lib64".to_vec();
    let platform = b"x86_64".to_vec();
    let path = p.as_bytes().to_vec();
    assert!(check_expandable(&path, &origin, &lib, &platform));
    String::from_utf8(expand_dynamic_tokens(&path, &origin, &lib, &platform)).unwrap()
}

#[test]
fn paths_without_tokens_are_unchanged() {
    assert_eq!(expand("/usr/lib"), "/usr/lib");
    assert_eq!(expand(""), "");
}

#[test]
fn known_tokens_expand() {
    assert_eq!(expand("$ORIGIN/../lib"), "/opt/app/bin/../lib");
    assert_eq!(expand("${ORIGIN}/../lib"), "/opt/app/bin/../lib");
    assert_eq!(expand("/usr/$LIB/x"), "/usr/lib64/x");
    assert_eq!(expand("/usr/${LIB}/x"), "/usr/lib64/x");
    assert_eq!(expand("/p/$PLATFORM"), "/p/x86_64");
    assert_eq!(expand("$ORIGIN:$LIB"), "/opt/app/bin:lib64");
}

#[test]
fn unknown_tokens_are_dropped() {
    assert_eq!(expand("/a/$FOO/b"), "/a//b");
    assert_eq!(expand("/a/${FOO}/b"), "/a//b");
    assert_eq!(expand("/a/${FOO"), "/a/");
}

#[test]
fn expansion_stops_at_double_dollar() {
    assert_eq!(expand("/a$$ORIGIN"), "/a");
    assert_eq!(expand("/a/$"), "/a/");
    assert_eq!(expand("/a/$LIB$"), "/a/lib64");
}

#[test]
fn unterminated_bracketed_token_cannot_be_expanded() {
    let e = Vec::new();
    assert!(!check_expandable(&b"/x/${ORIGIN".to_vec(), &e, &e, &e));
    assert!(check_expandable(&b"/x/${ORIGIN}".to_vec(), &e, &e, &e));
    // an unterminated token after a double dollar is never reached
    assert!(check_expandable(&b"/x$$${LIB".to_vec(), &e, &e, &e));
}

#[test]
fn search_paths_expand_in_order() {
    let paths = vec![b"$ORIGIN".to_vec(), b"/usr/$LIB".to_vec()];
    let r = expand_search_paths(&paths, &b"/o".to_vec(), &b"lib".to_vec(), &b"p".to_vec());
    assert_eq!(r, vec![b"/o".to_vec(), b"/usr/lib".to_vec()]);
}

#[test]
fn metadata_search_candidates() {
    let so = b"so".to_vec();
    let c = |p: &str| is_search_candidate(&p.as_bytes().to_vec(), &so);
    assert!(c("/usr/lib/libstd-abc.so"));
    assert!(c("libfoo.so"));
    assert!(c("/usr/lib/./libfoo.so/"));
    assert!(!c("/usr/lib/libfoo.rlib"));
    assert!(!c("/home/u/.rustup/toolchains/x/lib/libstd.so"));
    assert!(!c("/usr/lib/.so"));
    assert!(!c("/usr/lib/.."));
    assert!(!c("/"));
    assert!(!c("/usr/lib/libfoo"));
    assert!(c("/usr/lib/..so"));
}

fn push_u16(b: &mut Vec<u8>, v: u16) { b.extend_from_slice(&v.to_le_bytes()); }
fn push_u32(b: &mut Vec<u8>, v: u32) { b.extend_from_slice(&v.to_le_bytes()); }
fn push_u64(b: &mut Vec<u8>, v: u64) { b.extend_from_slice(&v.to_le_bytes()); }

/// A 64 bit shared object with a dynamic section whose `DT_RUNPATH` is `runpath`.
fn elf_with_runpath(runpath: &[u8]) -> Vec<u8> {
    let dyn_off: u64 = 64 + 2 * 56;
    let str_off: u64 = dyn_off + 4 * 16;
    let mut strtab = vec![0u8];
    strtab.extend_from_slice(runpath);
    strtab.push(0);
    let total = str_off + strtab.len() as u64;
    let mut b = Vec::new();
    b.extend_from_slice(&[0x7f, b'E', b'L', b'F', 2, 1, 1, 0, 0, 0, 0, 0, 0, 0, 0, 0]);
    push_u16(&mut b, 3); // shared object
    push_u16(&mut b, 62); // x86-64
    push_u32(&mut b, 1);
    push_u64(&mut b, 0); // entry
    push_u64(&mut b, 64); // program headers
    push_u64(&mut b, 0); // no section headers
    push_u32(&mut b, 0);
    push_u16(&mut b, 64);
    push_u16(&mut b, 56);
    push_u16(&mut b, 2);
    push_u16(&mut b, 64);
    push_u16(&mut b, 0);
    push_u16(&mut b, 0);
    // PT_LOAD of the whole file at address zero
    push_u32(&mut b, 1);
    push_u32(&mut b, 4);
    push_u64(&mut b, 0);
    push_u64(&mut b, 0);
    push_u64(&mut b, 0);
    push_u64(&mut b, total);
    push_u64(&mut b, total);
    push_u64(&mut b, 0x1000);
    // PT_DYNAMIC
    push_u32(&mut b, 2);
    push_u32(&mut b, 4);
    push_u64(&mut b, dyn_off);
    push_u64(&mut b, dyn_off);
    push_u64(&mut b, dyn_off);
    push_u64(&mut b, 4 * 16);
    push_u64(&mut b, 4 * 16);
    push_u64(&mut b, 8);
    // DT_STRTAB, DT_STRSZ, DT_RUNPATH, DT_NULL
    push_u64(&mut b, 5);
    push_u64(&mut b, str_off);
    push_u64(&mut b, 10);
    push_u64(&mut b, strtab.len() as u64);
    push_u64(&mut b, 29);
    push_u64(&mut b, 1);
    push_u64(&mut b, 0);
    push_u64(&mut b, 0);
    b.extend_from_slice(&strtab);
    b
}

#[test]
fn runpaths_of_an_image() {
    let exe = elf_with_runpath(b"$ORIGIN/../lib:/opt/rt");
    assert_eq!(exe_runpaths(&exe), vec![b"$ORIGIN/../lib".to_vec(), b"/opt/rt".to_vec()]);
    assert_eq!(exe_runpaths(b"not an image"), Vec::<Vec<u8>>::new());
}

#[test]
fn runpaths_keep_valid_utf8_prefix() {
    let exe = elf_with_runpath(b"/a:/b\xff/c:/d");
    assert_eq!(exe_runpaths(&exe), vec![b"/a".to_vec(), b"/b".to_vec()]);
}

#[test]
fn runpaths_walk_dynamic_entries() {
    // a string table at address 0x1000, mapped from file offset 4
    let file = b"xxxx\0/p::/q\0".to_vec();
    let phdrs = vec![(6u32, 0u64, 0u64, 0u64), (1u32, 0x1000u64, 0x100u64, 4u64)];
    let dyns = vec![(29u64, 1u64), (5u64, 0x1000u64), (0u64, 0u64)];
    assert_eq!(runpaths_in(&file, Some((phdrs.clone(), dyns))),
        vec![b"/p".to_vec(), b"".to_vec(), b"/q".to_vec()]);
    // entries after DT_NULL are not read
    let after_null = vec![(5u64, 0x1000u64), (0u64, 0u64), (29u64, 1u64)];
    assert_eq!(runpaths_in(&file, Some((phdrs.clone(), after_null))), Vec::<Vec<u8>>::new());
    // an address no loadable segment maps
    let unmapped = vec![(5u64, 0x9000u64), (29u64, 1u64), (0u64, 0u64)];
    assert_eq!(runpaths_in(&file, Some((phdrs, unmapped))), Vec::<Vec<u8>>::new());
    assert_eq!(runpaths_in(&file, None), Vec::<Vec<u8>>::new());
}
