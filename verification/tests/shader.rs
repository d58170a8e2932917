use std::path::PathBuf;

use frameloop::shader::{
    stage_outcome, CopyError, ShaderByteCode, ShaderError, ShaderManager, ShaderStage,
};

fn words(count: usize) -> Vec<u8> {
    let mut bytes = Vec::new();
    for i in 0..count * 4 {
        bytes.push((i * 7 + 3) as u8);
    }
    bytes
}

#[test]
fn manager_keeps_its_directory() {
    let manager = ShaderManager::create(PathBuf::from("/opt/shaders"));
    assert_eq!(manager.shaders_dir(), &PathBuf::from("/opt/shaders"));
    let copy = manager.clone();
    assert_eq!(copy.shaders_dir(), &PathBuf::from("/opt/shaders"));
    assert_eq!(copy.shaders_dir().join("vert.spv"), PathBuf::from("/opt/shaders/vert.spv"));
}

#[test]
fn bytecode_of_whole_words_passes_the_check() {
    let code = ShaderByteCode { vertex: words(5), fragment: words(1) };
    assert_eq!(code.check(), Ok(()));
}

#[test]
fn vertex_stage_is_checked_first() {
    let code = ShaderByteCode { vertex: vec![1, 2, 3], fragment: vec![1] };
    assert_eq!(
        code.check(),
        Err(ShaderError::Misaligned { stage: ShaderStage::Vertex, length: 3 })
    );
    let code = ShaderByteCode { vertex: words(2), fragment: vec![1, 2, 3, 4, 5] };
    assert_eq!(
        code.check(),
        Err(ShaderError::Misaligned { stage: ShaderStage::Fragment, length: 5 })
    );
}

#[test]
fn empty_bytecode_is_refused() {
    let code = ShaderByteCode { vertex: vec![], fragment: words(1) };
    assert_eq!(
        code.check(),
        Err(ShaderError::Misaligned { stage: ShaderStage::Vertex, length: 0 })
    );
    let code = ShaderByteCode { vertex: words(1), fragment: vec![] };
    assert_eq!(
        code.check(),
        Err(ShaderError::Misaligned { stage: ShaderStage::Fragment, length: 0 })
    );
}

#[test]
fn aligned_copies_hold_the_bytes() {
    let code = ShaderByteCode { vertex: words(6), fragment: words(3) };
    let aligned = match code.align() {
        Ok(aligned) => aligned,
        Err(error) => panic!("{:?}", error),
    };
    assert_eq!(aligned.vertex.code_size(), 24);
    assert_eq!(aligned.fragment.code_size(), 12);
    let vertex: Vec<u32> = code
        .vertex
        .chunks(4)
        .map(|c| u32::from_ne_bytes([c[0], c[1], c[2], c[3]]))
        .collect();
    let fragment: Vec<u32> = code
        .fragment
        .chunks(4)
        .map(|c| u32::from_ne_bytes([c[0], c[1], c[2], c[3]]))
        .collect();
    assert_eq!(aligned.vertex.code(), vertex.as_slice());
    assert_eq!(aligned.fragment.code(), fragment.as_slice());
    assert_eq!(aligned.vertex.code().as_ptr() as usize % 4, 0);
}

#[test]
fn misaligned_bytecode_is_not_copied() {
    let code = ShaderByteCode { vertex: words(2), fragment: vec![0; 10] };
    match code.align() {
        Err(error) => assert_eq!(
            error,
            ShaderError::Misaligned { stage: ShaderStage::Fragment, length: 10 }
        ),
        Ok(_) => panic!("misaligned bytecode was accepted"),
    }
    let code = ShaderByteCode { vertex: vec![0; 7], fragment: vec![0; 10] };
    match code.align() {
        Err(error) => assert_eq!(
            error,
            ShaderError::Misaligned { stage: ShaderStage::Vertex, length: 7 }
        ),
        Ok(_) => panic!("misaligned bytecode was accepted"),
    }
}

#[test]
fn outcome_of_a_copy_names_the_stage() {
    match stage_outcome(ShaderStage::Fragment, Err(CopyError::Alloc)) {
        Err(error) => assert_eq!(error, ShaderError::OutOfMemory { stage: ShaderStage::Fragment }),
        Ok(_) => panic!("an error became a success"),
    }
    match stage_outcome(ShaderStage::Vertex, Err(CopyError::Length(9))) {
        Err(error) => {
            assert_eq!(error, ShaderError::Misaligned { stage: ShaderStage::Vertex, length: 9 })
        }
        Ok(_) => panic!("an error became a success"),
    }
    let code = vulkanalia::bytecode::Bytecode::new(&[1, 2, 3, 4]).unwrap();
    match stage_outcome(ShaderStage::Vertex, Ok(code)) {
        Ok(code) => assert_eq!(code.code_size(), 4),
        Err(error) => panic!("{:?}", error),
    }
}
