use gears::buffer::{copy_into, BufferError, UniformBuffer, VertexBuffer};
use gears::compile::CompiledModule;
use gears::frame::{any_changed, FrameContext, FrameController, FrameError, FrameEvent, FramePhase};
use gears::pipeline::Pipeline;
use gears::stage::ModuleType;
use gears::tokens::{Delimiter, Token};

fn bytes_of(values: &[f32]) -> Vec<u8> {
    values.iter().flat_map(|v| v.to_ne_bytes()).collect()
}

#[test]
fn copying() {
    let mut mapping = vec![9u8; 6];
    copy_into(&mut mapping, &[1, 2, 3]);
    assert_eq!(mapping, vec![1, 2, 3, 9, 9, 9]);
    copy_into(&mut mapping, &[]);
    assert_eq!(mapping, vec![1, 2, 3, 9, 9, 9]);
    copy_into(&mut mapping, &[4, 5, 6, 7, 8, 0]);
    assert_eq!(mapping, vec![4, 5, 6, 7, 8, 0]);
}

#[test]
fn a_new_uniform_buffer_holds_nothing() {
    let buffer = UniformBuffer::new("buffer", "memory", 64);
    assert_eq!(buffer.capacity(), 64);
    assert_eq!(buffer.count(), 0);
    assert_eq!(*buffer.get(), "buffer");
    assert_eq!(*buffer.memory(), "memory");
    assert_eq!(buffer.destroy(), ("memory", "buffer"));
}

#[test]
fn a_write_is_recorded() {
    let mut buffer = UniformBuffer::new(1u32, 2u32, 64);
    let mut mapping = vec![0xeeu8; 64];
    let data = bytes_of(&[1.0, 2.0, 3.0, 4.0, 5.0, 6.0]);
    assert_eq!(buffer.write(&mut mapping, 0, 8, 3, &data), Ok(()));
    assert_eq!(buffer.count(), 3);
    assert_eq!(&mapping[..24], &data[..]);
    assert!(mapping[24..].iter().all(|b| *b == 0xee));
    assert_eq!(buffer.capacity(), 64);
    assert_eq!(*buffer.get(), 1);
}

#[test]
fn a_write_to_the_end_of_the_buffer() {
    let mut buffer = UniformBuffer::new((), (), 16);
    let mut mapping = vec![0u8; 16];
    assert_eq!(buffer.write(&mut mapping, 0, 4, 4, &[7u8; 16]), Ok(()));
    assert_eq!(mapping, vec![7u8; 16]);
    assert_eq!(buffer.write(&mut mapping, 8, 4, 2, &[1u8; 8]), Ok(()));
    assert_eq!(buffer.count(), 2);
    assert_eq!(&mapping[..8], &[1u8; 8]);
    assert_eq!(buffer.write(&mut mapping, 16, 4, 0, &[]), Ok(()));
    assert_eq!(buffer.count(), 0);
}

#[test]
fn a_write_beyond_the_capacity_changes_nothing() {
    let mut buffer = UniformBuffer::new((), (), 16);
    let mut mapping = vec![5u8; 16];
    assert_eq!(buffer.write(&mut mapping, 0, 4, 2, &[1u8; 8]), Ok(()));
    let before = mapping.clone();
    assert!(!buffer.accepts(0, 4, 5));
    assert!(!buffer.accepts(9, 4, 2));
    assert!(!buffer.accepts(17, 1, 0));
    assert!(!buffer.accepts(usize::MAX, usize::MAX, usize::MAX));
    assert!(!buffer.accepts(1, usize::MAX, 1));
    assert!(buffer.accepts(8, 4, 2));
    assert!(buffer.accepts(16, 4, 0));
    assert_eq!(buffer.try_write(&mut mapping, 0, 4, 5, &[2u8; 20]), Err(BufferError::Overflow));
    assert_eq!(buffer.try_write(&mut mapping, 9, 4, 2, &[2u8; 8]), Err(BufferError::Overflow));
    assert_eq!(buffer.try_write(&mut mapping, 17, 1, 0, &[]), Err(BufferError::Overflow));
    assert_eq!(
        buffer.try_write(&mut mapping, usize::MAX, usize::MAX, usize::MAX, &[2u8; 8]),
        Err(BufferError::Overflow)
    );
    assert_eq!(buffer.try_write(&mut mapping, 1, usize::MAX, 1, &[]), Err(BufferError::Overflow));
    assert_eq!(mapping, before);
    assert_eq!(buffer.count(), 2);
    assert_eq!(buffer.try_write(&mut mapping, 8, 4, 2, &[3u8; 8]), Ok(()));
    assert_eq!(&mapping[..8], &[3u8; 8]);
}

#[test]
fn sixty_four_bytes_at_offset_one_do_not_fit() {
    let mut buffer = UniformBuffer::new((), (), 64);
    let mut mapping = vec![0u8; 64];
    assert!(buffer.accepts(0, 64, 1));
    assert!(!buffer.accepts(1, 64, 1));
    assert_eq!(buffer.try_write(&mut mapping, 1, 64, 1, &[9u8; 64]), Err(BufferError::Overflow));
    assert_eq!(mapping, vec![0u8; 64]);
    assert_eq!(buffer.count(), 0);
}

#[test]
fn mismatched_data_and_short_mappings_are_refused() {
    let mut buffer = UniformBuffer::new((), (), 16);
    let mut mapping = vec![5u8; 16];
    assert_eq!(buffer.write(&mut mapping, 0, 4, 2, &[1u8; 7]), Err(BufferError::SizeMismatch));
    let mut short = vec![5u8; 15];
    assert_eq!(buffer.write(&mut short, 0, 4, 2, &[1u8; 8]), Err(BufferError::ShortMapping));
    assert_eq!(mapping, vec![5u8; 16]);
    assert_eq!(short, vec![5u8; 15]);
    assert_eq!(buffer.count(), 0);
}

#[test]
fn writing_twice_is_writing_once() {
    let mut buffer = UniformBuffer::new((), (), 32);
    let mut mapping = vec![0u8; 40];
    let data = bytes_of(&[0.5, -1.5, 2.25]);
    assert_eq!(buffer.write(&mut mapping, 4, 12, 1, &data), Ok(()));
    let once = mapping.clone();
    let count = buffer.count();
    assert_eq!(buffer.write(&mut mapping, 4, 12, 1, &data), Ok(()));
    assert_eq!(mapping, once);
    assert_eq!(buffer.count(), count);
    assert_eq!(count, 1);
}

#[test]
fn vertex_buffer_overflow() {
    let mut buffer = VertexBuffer::new((), (), 12, 100).unwrap();
    assert_eq!(buffer.capacity(), 100);
    assert_eq!(buffer.byte_capacity(), 1200);
    assert_eq!(buffer.count(), 0);
    let mut mapping = vec![0u8; 1200];
    let vertices = vec![1u8; 150 * 12];
    assert!(!buffer.accepts(0, 150));
    assert!(buffer.accepts(0, 100));
    assert!(!buffer.accepts(1, 100));
    assert!(!buffer.accepts(usize::MAX, 1));
    assert_eq!(buffer.try_write(&mut mapping, 0, 150, &vertices), Err(BufferError::Overflow));
    assert_eq!(mapping, vec![0u8; 1200]);
    assert_eq!(buffer.count(), 0);
    assert_eq!(buffer.write(&mut mapping, 0, 100, &vertices[..1200]), Ok(()));
    assert_eq!(buffer.count(), 100);
    assert_eq!(mapping, vec![1u8; 1200]);
    assert_eq!(buffer.try_write(&mut mapping, 1, 100, &vertices[..1200]), Err(BufferError::Overflow));
    assert_eq!(buffer.try_write(&mut mapping, usize::MAX, 1, &[]), Err(BufferError::Overflow));
    assert_eq!(buffer.try_write(&mut mapping, 0, 100, &vertices[..1200]), Ok(()));
    assert_eq!(buffer.write(&mut mapping, 0, 2, &vertices[..23]), Err(BufferError::SizeMismatch));
    assert_eq!(buffer.write(&mut mapping[..1199], 0, 1, &vertices[..12]), Err(BufferError::ShortMapping));
    assert_eq!(buffer.count(), 100);
}

#[test]
fn vertex_buffer_handles() {
    let buffer = VertexBuffer::new('b', 'm', 12, 3).unwrap();
    assert_eq!(*buffer.get(), 'b');
    assert_eq!(*buffer.memory(), 'm');
    assert_eq!(buffer.destroy(), ('m', 'b'));
    assert!(VertexBuffer::new((), (), usize::MAX, 2).is_none());
    assert!(VertexBuffer::new((), (), usize::MAX, 1).is_some());
    assert!(VertexBuffer::new((), (), 0, usize::MAX).is_some());
}

#[test]
fn phases_follow_one_another() {
    assert!(FrameController::new(0).is_none());
    let mut frames = FrameController::new(2).unwrap();
    assert_eq!(frames.context(), FrameContext { phase: FramePhase::Immediate, slot: 0, changed: false });
    assert_eq!(
        frames.step(FrameEvent::ImmediateDone),
        Ok(FrameContext { phase: FramePhase::Update, slot: 0, changed: false })
    );
    assert_eq!(
        frames.step(FrameEvent::UpdateDone { changed: true }),
        Ok(FrameContext { phase: FramePhase::Record, slot: 0, changed: true })
    );
    assert_eq!(
        frames.step(FrameEvent::RecordDone),
        Ok(FrameContext { phase: FramePhase::Immediate, slot: 1, changed: false })
    );
    frames.step(FrameEvent::ImmediateDone).unwrap();
    frames.step(FrameEvent::UpdateDone { changed: false }).unwrap();
    assert_eq!(frames.context(), FrameContext { phase: FramePhase::Record, slot: 1, changed: false });
    assert_eq!(
        frames.step(FrameEvent::RecordDone),
        Ok(FrameContext { phase: FramePhase::Immediate, slot: 0, changed: false })
    );
}

#[test]
fn reports_out_of_order_are_refused() {
    let mut frames = FrameController::new(1).unwrap();
    assert_eq!(frames.step(FrameEvent::UpdateDone { changed: true }), Err(FrameError::OutOfOrder));
    assert_eq!(frames.step(FrameEvent::RecordDone), Err(FrameError::OutOfOrder));
    assert_eq!(frames.context().phase, FramePhase::Immediate);
    frames.step(FrameEvent::ImmediateDone).unwrap();
    assert_eq!(frames.step(FrameEvent::ImmediateDone), Err(FrameError::OutOfOrder));
    assert_eq!(frames.step(FrameEvent::RecordDone), Err(FrameError::OutOfOrder));
    assert_eq!(frames.context().phase, FramePhase::Update);
    frames.step(FrameEvent::UpdateDone { changed: false }).unwrap();
    assert_eq!(frames.step(FrameEvent::ImmediateDone), Err(FrameError::OutOfOrder));
    assert_eq!(frames.step(FrameEvent::UpdateDone { changed: false }), Err(FrameError::OutOfOrder));
    assert_eq!(frames.context(), FrameContext { phase: FramePhase::Record, slot: 0, changed: false });
}

#[test]
fn update_reports() {
    assert!(!any_changed(&Vec::new()));
    assert!(!any_changed(&vec![false, false]));
    assert!(any_changed(&vec![false, true, false]));
}

#[test]
fn one_frame_cycle() {
    let mut frames = FrameController::new(1).unwrap();
    let mut ubo = UniformBuffer::new((), (), 64);
    let mut memory = vec![0u8; 64];
    // immediate: the transform is computed
    assert!(frames.context().may_write());
    let transform: [f32; 16] =
        [1.0, 0.0, 0.0, 0.0, 0.0, 1.0, 0.0, 0.0, 0.0, 0.0, 1.0, 0.0, 2.0, 3.0, 4.0, 1.0];
    let staged = bytes_of(&transform);
    let update = frames.step(FrameEvent::ImmediateDone).unwrap();
    // update: the transform is written
    assert_eq!(update.phase, FramePhase::Update);
    assert!(update.may_write());
    let written = ubo.write(&mut memory, 0, 64, 1, &staged).is_ok();
    let record = frames.step(FrameEvent::UpdateDone { changed: any_changed(&vec![written]) }).unwrap();
    // record: the buffer is only read
    assert_eq!(record.phase, FramePhase::Record);
    assert!(record.changed);
    assert!(!record.may_write());
    assert_eq!(ubo.count(), 1);
    assert_eq!(memory, staged);
    assert_eq!(frames.step(FrameEvent::RecordDone).unwrap().phase, FramePhase::Immediate);
}

fn is_ident(token: &Token, expected: &str) -> bool {
    matches!(token, Token::Ident { name, span: 0 } if name == expected)
}

fn is_punct(token: &Token, expected: char) -> bool {
    matches!(token, Token::Punct { ch, span: 0 } if *ch == expected)
}

fn check_constant(tokens: &[Token], name: &str, bytes: &[u8]) {
    assert_eq!(tokens.len(), 10);
    assert!(is_ident(&tokens[0], "pub"));
    assert!(is_ident(&tokens[1], "const"));
    assert!(is_ident(&tokens[2], name));
    assert!(is_punct(&tokens[3], ':'));
    assert!(is_punct(&tokens[4], '&'));
    match &tokens[5] {
        Token::Group { delimiter: Delimiter::Bracket, stream, span: 0 } => {
            assert_eq!(stream.len(), 1);
            assert!(is_ident(&stream[0], "u8"));
        }
        other => panic!("{:?}", other),
    }
    assert!(is_punct(&tokens[6], '='));
    assert!(is_punct(&tokens[7], '&'));
    match &tokens[8] {
        Token::Group { delimiter: Delimiter::Bracket, stream, span: 0 } => {
            assert_eq!(stream.len(), 2 * bytes.len());
            for (i, byte) in bytes.iter().enumerate() {
                assert!(
                    matches!(&stream[2 * i], Token::Literal { text, span: 0 } if *text == byte.to_string())
                );
                assert!(is_punct(&stream[2 * i + 1], ','));
            }
        }
        other => panic!("{:?}", other),
    }
    assert!(is_punct(&tokens[9], ';'));
}

#[test]
fn kernel_constants() {
    let module = CompiledModule { spirv: vec![3, 0, 255, 16], module_type: ModuleType::Vertex };
    let mut tokens = vec![Token::Punct { ch: '!', span: 4 }];
    module.to_tokens(&mut tokens);
    assert!(matches!(&tokens[0], Token::Punct { ch: '!', span: 4 }));
    check_constant(&tokens[1..], "VERT_KERNEL", &[3, 0, 255, 16]);
    let empty = CompiledModule { spirv: Vec::new(), module_type: ModuleType::Fragment };
    let mut tokens = Vec::new();
    empty.to_tokens(&mut tokens);
    check_constant(&tokens, "FRAG_KERNEL", &[]);
}

#[test]
fn pipeline_constants() {
    let pipeline = Pipeline {
        modules: vec![
            (ModuleType::Vertex, CompiledModule { spirv: vec![1, 2], module_type: ModuleType::Vertex }),
            (ModuleType::Fragment, CompiledModule { spirv: vec![9], module_type: ModuleType::Fragment }),
        ],
        bindgen_structs: Vec::new(),
    };
    let mut tokens = Vec::new();
    pipeline.to_tokens(&mut tokens);
    assert_eq!(tokens.len(), 20);
    check_constant(&tokens[..10], "VERT_KERNEL", &[1, 2]);
    check_constant(&tokens[10..], "FRAG_KERNEL", &[9]);
    assert_eq!(pipeline.layouts().map(|l| l.len()), Some(0));
}
