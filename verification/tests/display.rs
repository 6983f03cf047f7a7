use dalvik::decode::decode_all;

fn decode_and_display(ins: &[u16], expected: &[&str]) {
    let decoded: Vec<String> = decode_all(ins, usize::MAX)
        .unwrap()
        .into_iter()
        .map(|i| i.display())
        .collect();
    assert_eq!(decoded.as_slice(), expected);
}

#[test]
fn move_object_from_16() {
    decode_and_display(&[0x0108, 0x001f], &["move-object/from16 v1, v31"]);
}

#[test]
fn const_string() {
    decode_and_display(&[0x031a, 0x1234], &["const-string v3, string@1234"]);
}

#[test]
fn const_string_jumbo() {
    decode_and_display(&[0x001b, 0x4ee5, 0x0021], &["const-string/jumbo v0, string@214ee5"]);
}

#[test]
fn invoke_static() {
    decode_and_display(&[0x2071, 0x4455, 0x0030], &["invoke-static {v0, v3}, method@4455"]);
}

#[test]
fn invoke_virtual() {
    decode_and_display(&[0x106e, 0xccdd, 0x0001], &["invoke-virtual {v1}, method@ccdd"]);
}

#[test]
fn move_result_object() {
    decode_and_display(&[0x040c], &["move-result-object v4"]);
}

#[test]
fn const4() {
    decode_and_display(&[0x7b12], &["const/4 v11, 0x7"]);
}

#[test]
fn if_nez() {
    decode_and_display(&[0x1039, 0x0401], &["if-nez v16, +1025"]);
}

#[test]
fn return_() {
    decode_and_display(&[0x030f], &["return v3"]);
}

#[test]
fn iget_object() {
    decode_and_display(&[0x2054, 0xbeef], &["iget-object v0, v2, field@beef"]);
}

#[test]
fn goto_negative_offset() {
    decode_and_display(&[0xfd28], &["goto -3"]);
}

#[test]
fn const16_negative_literal() {
    decode_and_display(&[0x0013, 0xffff], &["const/16 v0, 0xffff"]);
}

#[test]
fn const_high16_trailing_zeros() {
    decode_and_display(&[0x0015, 0x1234], &["const/high16 v0, 0x12340000"]);
}

#[test]
fn const_wide_64bit_literal() {
    decode_and_display(
        &[0x0518, 0x1111, 0x2222, 0x3333, 0x4444],
        &["const-wide v5, 0x4444333322221111"],
    );
}

#[test]
fn add_int_lit8_hex() {
    decode_and_display(&[0x01d8, 0xff02], &["add-int/lit8 v1, v2, 0xff"]);
}

#[test]
fn three_register_operand_order() {
    // 23x packs the sources as CC|BB; the mnemonic order is dst, src1, src2.
    decode_and_display(&[0x0590, 0x0201], &["add-int v5, v1, v2"]);
}

#[test]
fn if_eq_two_registers() {
    decode_and_display(&[0x2132, 0x0007], &["if-eq v1, v2 +7"]);
}

#[test]
fn move16_wide_registers() {
    decode_and_display(&[0x0003, 0x0102, 0x0304], &["move/16 v258, v772"]);
}

#[test]
fn invoke_static_range() {
    decode_and_display(
        &[0x0377, 0x1234, 0x0010],
        &["invoke-static/range {v16, v17, v18}, method@1234"],
    );
}

#[test]
fn filled_new_array_display() {
    decode_and_display(&[0x3024, 0x0042, 0x0531], &["filled-new-array {v1, v3, v5}, type@42"]);
}

#[test]
fn packed_switch_display() {
    decode_and_display(&[0x022b, 0x0006, 0x0000], &["packed-switch v2, +6"]);
}
