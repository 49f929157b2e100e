use gpu_buffer::{Buffer, ByteOrder, Command, Device, Handle, Target, Usage};

fn filled(device: &mut Device, data: &[u8]) -> Buffer<u8> {
    let id = device.create_buffer().unwrap();
    let (buffer, commands) = Buffer::<u8>::new_with_data(id, data);
    assert!(device.run(&commands));
    buffer
}

#[test]
fn new_device_has_no_buffers() {
    let device = Device::new();
    assert!(!device.is_buffer(Handle(0)));
    assert!(!device.is_buffer(Handle(1)));
    assert_eq!(device.contents(Handle(1)), None);
    assert_eq!(device.bound(Target::ArrayBuffer), None);
    assert_eq!(device.bound(Target::ElementArrayBuffer), None);
    assert_eq!(device.bound(Target::UniformBuffer), None);
}

#[test]
fn created_buffers_are_empty_and_distinct() {
    let mut device = Device::new();
    let a = device.create_buffer().unwrap();
    let b = device.create_buffer().unwrap();
    let c = device.create_buffer().unwrap();
    assert_eq!((a, b, c), (Handle(1), Handle(2), Handle(3)));
    for h in [a, b, c] {
        assert!(device.is_buffer(h));
        assert_eq!(device.contents(h), Some(vec![]));
    }
    assert!(!device.is_buffer(Handle(4)));
}

#[test]
fn handles_are_not_issued_again_after_release() {
    let mut device = Device::new();
    let a = device.create_buffer().unwrap();
    assert!(device.execute(&Command::DeleteBuffer { buffer: a }));
    let b = device.create_buffer().unwrap();
    assert_ne!(a, b);
    assert!(!device.is_buffer(a));
    assert!(device.is_buffer(b));
}

#[test]
fn full_fill_replaces_the_store() {
    let mut device = Device::new();
    let mut buffer = filled(&mut device, &[1, 2, 3, 4]);
    assert_eq!(device.contents(buffer.id()), Some(vec![1, 2, 3, 4]));
    assert!(device.run(&buffer.fill(&[9, 8])));
    assert_eq!(device.contents(buffer.id()), Some(vec![9, 8]));
    assert!(device.run(&buffer.fill(&[])));
    assert_eq!(device.contents(buffer.id()), Some(vec![]));
    assert_eq!(device.bound(Target::ArrayBuffer), None);
}

#[test]
fn partial_fill_leaves_the_other_bytes() {
    let mut device = Device::new();
    let id = device.create_buffer().unwrap();
    let mut buffer = Buffer::<u16>::with_byte_order(id, ByteOrder::LittleEndian);
    assert!(device.run(&buffer.fill(&[0x0101, 0x0202, 0x0303, 0x0404, 0x0505])));
    assert_eq!(device.contents(id), Some(vec![1, 1, 2, 2, 3, 3, 4, 4, 5, 5]));

    assert!(device.run(&buffer.fill_subset(1, &[0x0A0B, 0x0C0D])));
    assert_eq!(buffer.attribute_count(), 5);
    assert_eq!(device.contents(id), Some(vec![1, 1, 0x0B, 0x0A, 0x0D, 0x0C, 4, 4, 5, 5]));

    assert!(device.run(&buffer.fill_subset(4, &[0xFFFF])));
    assert_eq!(buffer.attribute_count(), 5);
    assert_eq!(device.contents(id), Some(vec![1, 1, 0x0B, 0x0A, 0x0D, 0x0C, 4, 4, 0xFF, 0xFF]));

    assert!(device.run(&buffer.fill_subset(0, &[0, 0, 0, 0, 0])));
    assert_eq!(device.contents(id), Some(vec![0; 10]));
    assert_eq!(buffer.attribute_count(), 5);
}

#[test]
fn partial_fill_of_nothing_changes_nothing() {
    let mut device = Device::new();
    let mut buffer = filled(&mut device, &[1, 2, 3]);
    for offset in [0, 1, 3] {
        assert!(device.run(&buffer.fill_subset(offset, &[])));
        assert_eq!(device.contents(buffer.id()), Some(vec![1, 2, 3]));
        assert_eq!(buffer.attribute_count(), 3);
    }
}

#[test]
fn partial_fill_past_the_end_is_refused_by_the_device() {
    let mut device = Device::new();
    let id = device.create_buffer().unwrap();
    let mut buffer = Buffer::<u32>::with_byte_order(id, ByteOrder::LittleEndian);
    assert!(device.run(&buffer.fill(&[5, 6])));
    let commands = buffer.fill_subset(4, &[9]);
    assert_eq!(buffer.attribute_count(), 5);
    assert!(device.execute(&commands[0]));
    assert!(!device.execute(&commands[1]));
    assert!(device.execute(&commands[2]));
    assert_eq!(device.contents(id), Some(vec![5, 0, 0, 0, 6, 0, 0, 0]));
    assert_eq!(device.bound(Target::ArrayBuffer), None);

    let straddling = buffer.fill_subset(1, &[7, 8]);
    assert!(!device.run(&straddling));
    assert_eq!(device.contents(id), Some(vec![5, 0, 0, 0, 6, 0, 0, 0]));
}

#[test]
fn releasing_one_buffer_leaves_the_other() {
    let mut device = Device::new();
    let a = filled(&mut device, &[1, 2, 3]);
    let mut b = filled(&mut device, &[4, 5, 6, 7]);
    let (a_id, b_id) = (a.id(), b.id());
    assert_ne!(a_id, b_id);

    assert!(device.execute(&a.release()));
    assert!(!device.is_buffer(a_id));
    assert_eq!(device.contents(a_id), None);
    assert!(device.is_buffer(b_id));
    assert_eq!(device.contents(b_id), Some(vec![4, 5, 6, 7]));

    assert!(device.execute(&b.bind()));
    assert_eq!(device.bound(Target::ArrayBuffer), Some(b_id));
    assert!(device.run(&b.fill(&[8, 9])));
    assert_eq!(device.contents(b_id), Some(vec![8, 9]));
    assert!(device.run(&b.fill_subset(1, &[0])));
    assert_eq!(device.contents(b_id), Some(vec![8, 0]));
    assert_eq!(b.attribute_count(), 2);
}

#[test]
fn binding_replaces_what_was_bound() {
    let mut device = Device::new();
    let a = filled(&mut device, &[1]);
    let b = filled(&mut device, &[2]);
    assert!(device.execute(&a.bind()));
    assert_eq!(device.bound(Target::ArrayBuffer), Some(a.id()));
    assert!(device.execute(&b.bind()));
    assert_eq!(device.bound(Target::ArrayBuffer), Some(b.id()));
    assert_eq!(device.bound(Target::ElementArrayBuffer), None);
    assert_eq!(device.contents(a.id()), Some(vec![1]));
    assert_eq!(device.contents(b.id()), Some(vec![2]));
}

#[test]
fn device_refuses_what_it_cannot_do() {
    let mut device = Device::new();
    let target = Target::ArrayBuffer;
    assert!(!device.execute(&Command::BindBuffer { target, buffer: Some(Handle(1)) }));
    assert!(!device.execute(&Command::BindBuffer { target, buffer: Some(Handle(0)) }));
    assert!(device.execute(&Command::BindBuffer { target, buffer: None }));
    let upload = Command::BufferData { target, data: vec![1], usage: Usage::StaticDraw };
    assert!(!device.execute(&upload));
    assert!(!device.execute(&Command::BufferSubData { target, offset: 0, data: vec![] }));

    let id = device.create_buffer().unwrap();
    assert!(device.execute(&Command::BindBuffer { target, buffer: Some(id) }));
    assert!(device.execute(&upload));
    assert!(device.execute(&Command::BufferSubData { target, offset: 1, data: vec![] }));
    assert!(!device.execute(&Command::BufferSubData { target, offset: 1, data: vec![2] }));
    assert!(!device.execute(&Command::BufferSubData { target, offset: 2, data: vec![] }));
    assert!(!device.execute(&Command::BufferSubData { target, offset: u64::MAX, data: vec![2] }));
    assert_eq!(device.contents(id), Some(vec![1]));

    let other = Target::UniformBuffer;
    assert!(!device.execute(&Command::BufferData {
        target: other,
        data: vec![3],
        usage: Usage::DynamicDraw
    }));
    assert_eq!(device.contents(id), Some(vec![1]));
}

#[test]
fn releasing_a_bound_buffer_empties_its_slots() {
    let mut device = Device::new();
    let a = device.create_buffer().unwrap();
    let b = device.create_buffer().unwrap();
    assert!(device.execute(&Command::BindBuffer { target: Target::ArrayBuffer, buffer: Some(a) }));
    assert!(device.execute(&Command::BindBuffer {
        target: Target::ElementArrayBuffer,
        buffer: Some(b)
    }));
    assert!(device.execute(&Command::BindBuffer { target: Target::UniformBuffer, buffer: Some(a) }));
    assert!(device.execute(&Command::DeleteBuffer { buffer: a }));
    assert_eq!(device.bound(Target::ArrayBuffer), None);
    assert_eq!(device.bound(Target::ElementArrayBuffer), Some(b));
    assert_eq!(device.bound(Target::UniformBuffer), None);
    // Releasing what is not there is accepted and does nothing.
    assert!(device.execute(&Command::DeleteBuffer { buffer: a }));
    assert!(device.execute(&Command::DeleteBuffer { buffer: Handle(99) }));
    assert!(device.is_buffer(b));
}

#[test]
fn run_tells_whether_all_commands_were_carried_out() {
    let mut device = Device::new();
    let mut stranger = Buffer::<u8>::new(Handle(5));
    assert!(!device.run(&stranger.fill(&[1, 2])));
    assert_eq!(device.contents(Handle(5)), None);
    assert!(device.run(&vec![]));
    let id = device.create_buffer().unwrap();
    let mut known = Buffer::<u8>::new(id);
    assert!(device.run(&known.fill(&[1, 2])));
    let mut mixed = stranger.fill(&[3]);
    mixed.extend(known.fill(&[4]));
    assert!(!device.run(&mixed));
    assert_eq!(device.contents(id), Some(vec![4]));
}
