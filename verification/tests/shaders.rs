use shaderpixel::vulkan::shader::{
    compile_code, compile_slot_source, ModulePoll, ReloadOutcome, ShaderSlot, ShaderStage,
    SlotState,
};
use shaderpixel::vulkan::spv::{words_from_bytes, SpvError, SPV_MAGIC};

const GOOD_VERT: &str = "#version 450\nvoid main() { gl_Position = vec4(0.0, 0.0, 0.0, 1.0); }\n";
const GOOD_FRAG: &str =
    "#version 450\nlayout(location = 0) out vec4 color;\nvoid main() { color = vec4(1.0); }\n";
const BAD_FRAG: &str = "#version 450\nvoid main() { this is not glsl; }\n";

fn start_compiling(stage: ShaderStage, path: &str) -> ShaderSlot {
    let mut slot = ShaderSlot::new(stage).with_path(path.to_string());
    let outcome = slot.request_reload(true);
    assert!(matches!(outcome, ReloadOutcome::Enqueued(_)));
    slot
}

#[test]
fn compile_good_source_yields_module() {
    let mut slot = start_compiling(ShaderStage::Vertex, "good.vert");
    assert!(compile_slot_source(&mut slot, GOOD_VERT));
    assert_eq!(slot.state, SlotState::Ready);
    let words = match slot.poll_module() {
        ModulePoll::Load(words) => words,
        _ => panic!("expected fresh bytecode to load a module from"),
    };
    assert!(!words.is_empty());
    assert_eq!(words[0], SPV_MAGIC);
    // the module is live now: the slot reports it without new work
    assert!(slot.module_live());
    assert!(matches!(slot.poll_module(), ModulePoll::Live));
}

#[test]
fn compile_good_fragment_source() {
    let mut slot = start_compiling(ShaderStage::Fragment, "good.frag");
    assert!(compile_slot_source(&mut slot, GOOD_FRAG));
    assert_eq!(slot.state, SlotState::Ready);
    assert!(slot.bytecode.is_some());
    assert!(slot.last_error.is_none());
}

#[test]
fn compile_bad_source_keeps_previous_bytecode() {
    // first compile valid source; the bytecode is not yet consumed
    let mut slot = start_compiling(ShaderStage::Fragment, "art.frag");
    assert!(compile_slot_source(&mut slot, GOOD_FRAG));
    let previous = slot.bytecode.clone();
    assert!(previous.is_some());

    // a reload whose compile fails leaves the previous bytecode untouched
    // and records the error: the slot is stale but still valid
    slot.mark_changed();
    assert!(matches!(slot.request_reload(false), ReloadOutcome::Enqueued(false)));
    assert!(!compile_slot_source(&mut slot, BAD_FRAG));
    assert_eq!(slot.state, SlotState::Ready);
    assert!(slot.last_error.is_some());
    assert_eq!(slot.bytecode, previous);

    // a slot that never compiled falls back to empty instead
    let mut fresh = start_compiling(ShaderStage::Fragment, "fresh.frag");
    assert!(!compile_slot_source(&mut fresh, BAD_FRAG));
    assert_eq!(fresh.state, SlotState::Empty);
    assert!(fresh.last_error.is_some());
}

#[test]
fn compile_code_accepts_and_rejects() {
    assert!(compile_code(true, GOOD_VERT).is_ok());
    assert!(compile_code(false, BAD_FRAG).is_err());
    // an interior NUL byte cannot reach the compiler's C string
    assert!(compile_code(false, "#version 450\u{0}\nvoid main() {}\n").is_err());
}

#[test]
fn spv_words_round_trip() {
    let words: Vec<u32> = vec![SPV_MAGIC, 0x0001_0000, 7, 0x8000_0001];
    let mut bytes: Vec<u8> = Vec::new();
    for w in words.iter() {
        bytes.extend_from_slice(&w.to_le_bytes());
    }
    assert_eq!(words_from_bytes(&bytes), Ok(words.clone()));

    let mut big: Vec<u8> = Vec::new();
    for w in words.iter() {
        big.extend_from_slice(&w.to_be_bytes());
    }
    assert_eq!(words_from_bytes(&big), Ok(words));
}

#[test]
fn spv_rejects_bad_input() {
    assert_eq!(words_from_bytes(&vec![]), Err(SpvError::BadLength));
    assert_eq!(words_from_bytes(&vec![3, 2, 35]), Err(SpvError::BadLength));
    assert_eq!(words_from_bytes(&vec![1, 2, 3, 4]), Err(SpvError::BadMagic));
}
