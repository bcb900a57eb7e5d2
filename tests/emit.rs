use rupyjit::emit::{
    write_call_rax, write_cmp_rax_0, write_endbr64, write_je, write_mov_rax,
    write_mov_rsp_to_rbp, write_nop, write_pop_r11, write_pop_rax, write_pop_rbp, write_pop_rdi,
    write_pop_rsi, write_push_dummy_value, write_push_r11, write_push_rax, write_push_rbp,
    write_ret, write_software_breakpoint,
};

#[test]
fn mov_rax_writes_little_endian_immediate() {
    let mut buf = vec![0u8; 12];
    let end = write_mov_rax(&mut buf, 1, 0x1122_3344_5566_7788);
    assert_eq!(end, 11);
    assert_eq!(
        buf,
        vec![0, 0x48, 0xb8, 0x88, 0x77, 0x66, 0x55, 0x44, 0x33, 0x22, 0x11, 0]
    );
}

#[test]
fn je_writes_signed_displacement() {
    let mut buf = vec![0u8; 6];
    assert_eq!(write_je(&mut buf, 0, 48), 6);
    assert_eq!(buf, vec![0x0f, 0x84, 48, 0, 0, 0]);
    let mut buf = vec![0u8; 6];
    write_je(&mut buf, 0, -24);
    assert_eq!(buf, vec![0x0f, 0x84, 0xe8, 0xff, 0xff, 0xff]);
}

#[test]
fn single_byte_forms() {
    let cases: Vec<(fn(&mut Vec<u8>, usize) -> usize, u8)> = vec![
        (write_nop, 0x90),
        (write_software_breakpoint, 0xcc),
        (write_ret, 0xc3),
        (write_push_rbp, 0x55),
        (write_push_rax, 0x50),
        (write_pop_rbp, 0x5d),
        (write_pop_rax, 0x58),
        (write_pop_rdi, 0x5f),
        (write_pop_rsi, 0x5e),
    ];
    for (write, byte) in cases {
        let mut buf = vec![0u8; 3];
        assert_eq!(write(&mut buf, 2), 3);
        assert_eq!(buf, vec![0, 0, byte]);
    }
}

#[test]
fn multi_byte_forms() {
    let cases: Vec<(fn(&mut Vec<u8>, usize) -> usize, Vec<u8>)> = vec![
        (write_call_rax, vec![0xff, 0xd0]),
        (write_cmp_rax_0, vec![0x48, 0x83, 0xf8, 0x00]),
        (write_endbr64, vec![0xf3, 0x0f, 0x1e, 0xfa]),
        (write_mov_rsp_to_rbp, vec![0x48, 0x89, 0xe5]),
        (write_push_dummy_value, vec![0x68, 0xaa, 0xbb, 0xcc, 0xdd]),
        (write_push_r11, vec![0x41, 0x53]),
        (write_pop_r11, vec![0x41, 0x5b]),
    ];
    for (write, bytes) in cases {
        let mut buf = vec![7u8; bytes.len() + 1];
        assert_eq!(write(&mut buf, 0), bytes.len());
        let mut want = bytes.clone();
        want.push(7);
        assert_eq!(buf, want);
    }
}
