use aarch64_pcc::nn_ctx::{Table, WasiNnCtx};

#[test]
fn instantiate() {
    WasiNnCtx::<Vec<u32>, u32, u32>::default();
}

#[test]
fn table_hands_out_keys_in_order() {
    let mut t: Table<&str> = Table::default();
    assert_eq!(t.insert("a"), 0);
    assert_eq!(t.insert("b"), 1);
    *t.get_mut(0).unwrap() = "c";
    assert_eq!(t.get_mut(0).map(|v| *v), Some("c"));
    assert_eq!(t.get_mut(1).map(|v| *v), Some("b"));
    assert!(t.get_mut(2).is_none());
}

#[test]
fn context_starts_empty() {
    let mut ctx: WasiNnCtx<Vec<u32>, u8, u8> = WasiNnCtx::new(vec![1, 2]);
    assert_eq!(ctx.backends, vec![1, 2]);
    assert!(ctx.graphs.get_mut(0).is_none());
    assert_eq!(ctx.graphs.insert(7), 0);
    assert_eq!(ctx.executions.insert(9), 0);
}
