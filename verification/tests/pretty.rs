use dalvik::Instruction;
use dalvik::decode::decode_one;
use dalvik::PrettyPrint;

struct FakeDex;

impl PrettyPrint for FakeDex {
    fn method(&self, index: u16) -> (String, String, String, String) {
        (
            String::from("LFoo;"),
            format!("call{:x}", index),
            String::from("II"),
            String::from("V"),
        )
    }

    fn field(&self, index: u16) -> (String, String, String) {
        (String::from("LBar;"), format!("field{:x}", index), String::from("I"))
    }

    fn string(&self, index: u32) -> String {
        format!("str{:x}", index)
    }

    fn type_str(&self, index: u16) -> String {
        format!("LType{:x};", index)
    }
}

fn decode(buf: &[u16]) -> Instruction {
    let mut s: &[u16] = buf;
    decode_one(&mut s).unwrap()
}

#[test]
fn print_const_string_resolves_contents() {
    let inst = decode(&[0x031a, 0x1234]);
    assert_eq!(FakeDex.print(&inst), "const-string v3, \"str1234\"");
}

#[test]
fn print_const_string_jumbo_resolves_contents() {
    let inst = decode(&[0x001b, 0x4ee5, 0x0021]);
    assert_eq!(FakeDex.print(&inst), "const-string/jumbo v0, \"str214ee5\"");
}

#[test]
fn print_iget_resolves_field() {
    let inst = decode(&[0x2054, 0xbeef]);
    assert_eq!(FakeDex.print(&inst), "iget-object v0, 2, LBar;->fieldbeef:I");
}

#[test]
fn print_sget_resolves_field() {
    let inst = decode(&[0x0460, 0x0007]);
    assert_eq!(FakeDex.print(&inst), "sget v4, LBar;->field7:I");
}

#[test]
fn print_invoke_resolves_method() {
    let inst = decode(&[0x2071, 0x4455, 0x0030]);
    assert_eq!(FakeDex.print(&inst), "invoke-static {v0, v3}, LFoo;->call4455(II)V");
}

#[test]
fn print_invoke_range_resolves_method() {
    let inst = decode(&[0x0277, 0x0012, 0x0005]);
    assert_eq!(FakeDex.print(&inst), "invoke-static/range {v5, v6}, LFoo;->call12(II)V");
}

#[test]
fn print_new_instance_resolves_type() {
    let inst = decode(&[0x0322, 0x0042]);
    assert_eq!(FakeDex.print(&inst), "new-instance v3, LType42;");
}

#[test]
fn print_check_cast_resolves_type() {
    let inst = decode(&[0x011f, 0x0009]);
    assert_eq!(FakeDex.print(&inst), "check-cast v1, LType9;");
}

#[test]
fn print_instance_of_resolves_type() {
    let inst = decode(&[0x2120, 0x0008]);
    assert_eq!(FakeDex.print(&inst), "instance-of v1, v2, LType8;");
}

#[test]
fn print_filled_new_array_resolves_type() {
    let inst = decode(&[0x3024, 0x0042, 0x0531]);
    assert_eq!(FakeDex.print(&inst), "filled-new-array {v1, v3, v5}, LType42;");
}

#[test]
fn print_without_lookup_falls_back_to_display() {
    let inst = decode(&[0x7b12]);
    assert_eq!(FakeDex.print(&inst), "const/4 v11, 0x7");
    assert_eq!(FakeDex.print(&Instruction::Nop), "nop");
}
