use geobacter_runtime::channel_mask;
use geobacter_runtime::channel_mask::{shift, Bit, Mask, MaskDetail, N, Y};
use geobacter_runtime::conditional::ConditionalExpr;
use geobacter_runtime::llvm::{join_path, LlvmBuildRoot};
use geobacter_runtime::env::{flag_value, key, print_opt_remarks, use_llc, DebugFlags};
use geobacter_runtime::lds::Lds;
use geobacter_runtime::metadata::CrateSource;
use geobacter_runtime::rust_eh_personality;

#[test]
fn unshift() {
    type TT = Mask<N, Y, N, Y>;
    assert_eq!(channel_mask::unshift(<TT as MaskDetail>::mask(), [1.0f32, 1.0, 0.0, 0.0], 0.0),
               [0.0, 1.0, 0.0, 1.0]);
}

#[test]
fn masks_and_shift_round_trip() {
    assert_eq!(<Mask<Y, N, N, N> as MaskDetail>::mask(), 1);
    assert_eq!(<Mask<N, Y, N, Y> as MaskDetail>::mask(), 0b1010);
    assert_eq!(<Mask<Y, Y, Y, Y> as MaskDetail>::mask(), 0b1111);
    assert!(Y::test());
    assert!(!N::test());
    let mask = <Mask<Y, N, Y, N> as MaskDetail>::mask();
    let packed = shift(mask, [10u32, 20, 30, 40], 0);
    assert_eq!(packed, [10, 30, 0, 0]);
    assert_eq!(channel_mask::unshift(mask, packed, 0), [10, 0, 30, 0]);
}

#[test]
fn conditional_exprs() {
    let big = |t: &u32| *t > 3;
    let mut e: ConditionalExpr<u32> = ConditionalExpr::Item(5);
    assert!(e.eval(&big));
    e.add(ConditionalExpr::Item(1));
    // an item becomes a conjunction
    assert!(matches!(e, ConditionalExpr::All(ref v) if v.len() == 2));
    assert!(!e.eval(&big));
    let mut any = ConditionalExpr::Any(vec![ConditionalExpr::Item(1)]);
    assert!(!any.eval(&big));
    any.add(ConditionalExpr::Item(9));
    // adding to a disjunction widens it
    assert!(any.eval(&big));
    let mut not = ConditionalExpr::Not(Box::new(ConditionalExpr::Item(9)));
    assert!(!not.eval(&big));
    not.all_add(ConditionalExpr::Item(4));
    assert!(!not.eval(&big));
    let empty: ConditionalExpr<u32> = ConditionalExpr::new_all();
    assert!(empty.eval(&big));
}

#[test]
fn llvm_tools() {
    let root = LlvmBuildRoot::from_roots(Some("/rust/build".to_string()), Some("/other".to_string()),
                                         "x86_64-unknown-linux-gnu").unwrap();
    assert_eq!(root.llvm_root(), "/rust/build/x86_64-unknown-linux-gnu/llvm");
    assert_eq!(root.llc(), "/rust/build/x86_64-unknown-linux-gnu/llvm/bin/llc");
    let root = LlvmBuildRoot::from_roots(None, Some("/opt/llvm/".to_string()), "h").unwrap();
    assert_eq!(root.llvm_root(), "/opt/llvm/");
    assert_eq!(root.llc(), "/opt/llvm/bin/llc");
    assert_eq!(root.lld(), "/opt/llvm/bin/ld.lld");
    assert_eq!(root.clang(), "/opt/llvm/bin/clang");
    assert_eq!(root.clangxx(), "/opt/llvm/bin/clang++");
    assert_eq!(root.ar(), "/opt/llvm/bin/llvm-ar");
    assert_eq!(root.ranlib(), "/opt/llvm/bin/llvm-ranlib");
    assert_eq!(root.llvm_tool("opt"), "/opt/llvm/bin/opt");
    assert!(LlvmBuildRoot::from_roots(None, None, "h").is_none());
    assert_eq!(join_path(&"a".to_string(), "/abs"), "/abs");
    assert_eq!(join_path(&String::new(), "b"), "b");
}

#[test]
fn debug_switches() {
    assert_eq!(key("USE_LLC"), "GEOBACTER_USE_LLC");
    assert!(!flag_value(&None));
    assert!(!flag_value(&Some("0".to_string())));
    assert!(flag_value(&Some("1".to_string())));
    assert!(flag_value(&Some(String::new())));
    let flags = DebugFlags::initialize(&Some("yes".to_string()), &None);
    assert!(use_llc(&flags));
    assert!(!print_opt_remarks(&flags));
}

#[test]
fn lds_barriers_between_uses() {
    let slot: Lds<[u32; 64]> = Lds::new();
    let mut b = slot.borrow();
    let barriers = std::cell::Cell::new(0);
    // the first use runs no barrier
    assert_eq!(b.with_singleton(|| barriers.set(barriers.get() + 1), |_| barriers.get()), (false, 0));
    // later uses run it before the closure
    assert_eq!(b.with_shared(|| barriers.set(barriers.get() + 1), |_| barriers.get()), (true, 1));
    assert_eq!(b.with_mut(|| barriers.set(barriers.get() + 1), |_| barriers.get()), (true, 2));
    assert_eq!(barriers.get(), 2);
}

#[test]
fn lds_array_borrow_no_panic() {
    let slot: Lds<[u8; 1]> = Lds::new();
    slot.borrow();
}

#[test]
fn crate_sources() {
    let m = CrateSource::Mapped("/x/libfoo.rlib".to_string());
    let s = CrateSource::SearchPaths("/y/libbar.so".to_string());
    assert_eq!(m.path(), "/x/libfoo.rlib");
    assert_eq!(s.path(), "/y/libbar.so");
    rust_eh_personality();
}

#[test]
fn llc_arguments() {
    let args = geobacter_runtime::llvm::llc_args("/t/linked.bc", "gfx900", "+dpp", "-relocation-model=pic", "obj", "/t/obj.o");
    assert_eq!(args, vec!["/t/linked.bc", "-mcpu=gfx900", "-mattr=+dpp", "-relocation-model=pic",
                          "-filetype=obj", "-o", "/t/obj.o"]);
}
