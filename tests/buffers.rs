use std::collections::HashMap;

use vk_resources::buffer::{Buffer, BufferError, BufferType};
use vk_resources::command::{Command, Resource};
use vk_resources::command_buffer::{CommandBuffer, RecordState};

/// Runs recorded commands over a map from handle to bytes, as the device would.
fn execute(memory: &mut HashMap<u64, Vec<u8>>, commands: &[Command]) {
    for c in commands {
        match c {
            Command::Write { dst, bytes } => overwrite(memory, *dst, bytes.clone()),
            Command::CopyBuffer { src, dst, size } => {
                let src_bytes = memory.get(src).cloned().unwrap_or_default();
                let n = (*size as usize).min(src_bytes.len());
                overwrite(memory, *dst, src_bytes[..n].to_vec());
            }
            Command::CopyBufferToImage { src, image, .. } => {
                let src_bytes = memory.get(src).cloned().unwrap_or_default();
                overwrite(memory, *image, src_bytes);
            }
            Command::Barrier { .. } => {}
        }
    }
}

fn overwrite(memory: &mut HashMap<u64, Vec<u8>>, dst: u64, bytes: Vec<u8>) {
    let cur = memory.entry(dst).or_default();
    if bytes.len() >= cur.len() {
        *cur = bytes;
    } else {
        cur[..bytes.len()].copy_from_slice(&bytes);
    }
}

fn res(handle: u64) -> Resource {
    Resource { handle, allocation: handle + 1000 }
}

fn recording(handle: u64) -> CommandBuffer {
    let mut cb = CommandBuffer::new(handle);
    cb.begin();
    cb
}

/// Runs what was recorded and submits it, as one frame does.
fn finish(cb: &mut CommandBuffer, memory: &mut HashMap<u64, Vec<u8>>) {
    cb.end();
    execute(memory, cb.commands());
    let _ = cb.submit(&[], &[], None);
    cb.complete();
}

#[test]
fn create_records_staging_write_and_copy() {
    let mut cb = recording(1);
    let data = [1u8, 2, 3];
    let b = Buffer::new(&mut cb, res(10), res(11), &data, BufferType::Vertex, false);
    assert_eq!(b.get_size(), 3);
    assert_eq!(b.get_buffer(), 10);
    assert!(!b.is_persistent());
    assert_eq!(cb.commands().len(), 2);
    assert!(matches!(&cb.commands()[0], Command::Write { dst: 11, bytes } if bytes == &vec![1u8, 2, 3]));
    assert!(matches!(cb.commands()[1], Command::CopyBuffer { src: 11, dst: 10, size: 3 }));
    assert_eq!(cb.cleanup_list(), &[res(11)]);
    let mut b = b;
    let _ = b.destroy();
    cb.end();
    let _ = cb.submit(&[], &[], None);
    cb.complete();
    let _ = cb.cleanup();
}

#[test]
fn persistent_buffer_keeps_its_staging() {
    let mut cb = recording(1);
    let mut b = Buffer::new(&mut cb, res(10), res(11), &[5u8; 8], BufferType::Uniform, true);
    assert!(b.is_persistent());
    assert!(cb.cleanup_list().is_empty());
    let freed = b.destroy();
    assert_eq!(freed, vec![res(11), res(10)]);
}

#[test]
fn vertex_buffer_destroy_returns_to_baseline() {
    let mut memory = HashMap::new();
    let mut live: Vec<Resource> = Vec::new();
    let pattern: Vec<u8> = (0..64u8).collect();
    let mut cb = recording(1);
    live.push(res(20));
    live.push(res(21));
    let mut b = Buffer::new(&mut cb, res(20), res(21), &pattern, BufferType::Vertex, false);
    finish(&mut cb, &mut memory);
    for r in cb.cleanup() {
        live.retain(|x| *x != r);
    }
    for r in b.destroy() {
        live.retain(|x| *x != r);
    }
    assert!(live.is_empty());
    assert_eq!(b.get_size(), 0);
}

#[test]
fn destroy_twice_frees_nothing_more() {
    let mut cb = recording(1);
    let mut b = Buffer::new(&mut cb, res(10), res(11), &[9u8; 4], BufferType::Index, true);
    assert_eq!(b.destroy().len(), 2);
    assert_eq!(b.get_size(), 0);
    assert!(b.destroy().is_empty());
    assert_eq!(b.get_size(), 0);
}

#[test]
fn upload_round_trip_reads_back_data() {
    let mut memory = HashMap::new();
    let data: Vec<u8> = vec![7, 1, 8, 2, 8, 1, 8, 2, 8];
    memory.insert(10, vec![0u8; data.len()]);
    let mut cb = recording(1);
    let _b = Buffer::new(&mut cb, res(10), res(11), &data, BufferType::Storage, false);
    finish(&mut cb, &mut memory);
    let _ = cb.cleanup();
    let mut readback = recording(2);
    memory.insert(99, vec![0u8; data.len()]);
    readback.record(Command::CopyBuffer { src: 10, dst: 99, size: data.len() as u64 });
    finish(&mut readback, &mut memory);
    assert_eq!(memory[&99], data);
    let mut b = _b;
    let _ = b.destroy();
}

#[test]
fn update_twice_with_same_bytes_is_idempotent() {
    let mut memory = HashMap::new();
    let mut cb = recording(1);
    let mut b = Buffer::new(&mut cb, res(10), res(11), &[0u8; 6], BufferType::Storage, true);
    finish(&mut cb, &mut memory);
    let data = [4u8, 4, 5, 5, 6, 6];
    cb.begin();
    assert_eq!(b.update(&mut cb, None, &data), Ok(()));
    finish(&mut cb, &mut memory);
    let first = memory[&10].clone();
    cb.begin();
    assert_eq!(b.update(&mut cb, None, &data), Ok(()));
    finish(&mut cb, &mut memory);
    assert_eq!(memory[&10], first);
    assert_eq!(first, data.to_vec());
    let _ = b.destroy();
}

#[test]
fn persistent_updates_use_one_staging_allocation() {
    let mut memory = HashMap::new();
    let mut cb = recording(1);
    let mut b = Buffer::new(&mut cb, res(30), res(31), &[0u8; 32], BufferType::Storage, true);
    finish(&mut cb, &mut memory);
    for round in 0..10u8 {
        let data = [round; 32];
        cb.begin();
        assert_eq!(b.update(&mut cb, None, &data), Ok(()));
        assert!(cb.cleanup_list().is_empty());
        assert!(cb.commands().iter().all(|c| match c {
            Command::Write { dst, .. } => *dst == 31,
            Command::CopyBuffer { src, dst, .. } => *src == 31 && *dst == 30,
            _ => false,
        }));
        finish(&mut cb, &mut memory);
        assert_eq!(memory[&30], data.to_vec());
    }
    assert_eq!(b.destroy(), vec![res(31), res(30)]);
}

#[test]
fn update_with_other_length_is_refused() {
    let mut cb = recording(1);
    let mut b = Buffer::new(&mut cb, res(10), res(11), &[1u8; 16], BufferType::Vertex, true);
    let before = cb.commands().len();
    let r = b.update(&mut cb, None, &[2u8; 8]);
    assert_eq!(r, Err(BufferError::SizeMismatch { expected: 16, found: 8 }));
    assert_eq!(cb.commands().len(), before);
    assert_eq!(b.get_size(), 16);
    let _ = b.destroy();
}

#[test]
fn update_of_destroyed_buffer_is_refused() {
    let mut cb = recording(1);
    let mut b = Buffer::new(&mut cb, res(10), res(11), &[1u8; 4], BufferType::Vertex, true);
    let _ = b.destroy();
    assert_eq!(b.update(&mut cb, None, &[1u8; 4]), Err(BufferError::Destroyed));
}

#[test]
fn non_persistent_update_takes_fresh_staging() {
    let mut cb = recording(1);
    let mut b = Buffer::new(&mut cb, res(10), res(11), &[1u8; 4], BufferType::Vertex, false);
    assert_eq!(b.update(&mut cb, Some(res(12)), &[3u8; 4]), Ok(()));
    assert_eq!(cb.cleanup_list(), &[res(11), res(12)]);
    assert!(matches!(cb.commands()[3], Command::CopyBuffer { src: 12, dst: 10, size: 4 }));
    let _ = b.destroy();
}

#[test]
fn second_submission_observes_first() {
    let mut memory = HashMap::new();
    memory.insert(10, vec![0u8; 3]);
    memory.insert(40, vec![0u8; 3]);
    let mut first = recording(1);
    let mut b = Buffer::new(&mut first, res(10), res(11), &[6u8, 6, 6], BufferType::Storage, false);
    finish(&mut first, &mut memory);
    let mut second = recording(2);
    second.record(Command::CopyBuffer { src: 10, dst: 40, size: 3 });
    finish(&mut second, &mut memory);
    assert_eq!(memory[&40], vec![6u8, 6, 6]);
    let _ = first.cleanup();
    let _ = b.destroy();
    assert_eq!(first.get_state(), RecordState::Completed);
}
