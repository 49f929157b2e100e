use gpu_buffer::{
    ByteOrder, Command, Device, ElementBuffer, Float32, Handle, InstanceBuffer, Target,
    UniformBuffer, Usage, VertexBuffer,
};

fn targets_of(commands: &[Command]) -> Vec<Target> {
    commands
        .iter()
        .map(|c| match c {
            Command::BindBuffer { target, .. } => *target,
            Command::BufferData { target, .. } => *target,
            Command::BufferSubData { target, .. } => *target,
            Command::DeleteBuffer { .. } => panic!("no target"),
        })
        .collect()
}

fn bits(x: f32) -> Float32 {
    Float32::from_bits(x.to_bits())
}

#[test]
fn vertex_buffer_goes_through_the_array_slot() {
    let id = Handle(3);
    let positions = [[bits(0.0), bits(1.0), bits(2.0)], [bits(3.0), bits(4.0), bits(5.0)]];
    let (mut buffer, commands) = VertexBuffer::new_with_data(id, &positions);
    assert_eq!(buffer.vertex_count(), 2);
    assert_eq!(targets_of(&commands), vec![Target::ArrayBuffer; 3]);
    let mut expected = Vec::new();
    for x in [0.0f32, 1.0, 2.0, 3.0, 4.0, 5.0] {
        expected.extend_from_slice(&x.to_ne_bytes());
    }
    assert_eq!(
        commands[1],
        Command::BufferData {
            target: Target::ArrayBuffer,
            data: expected,
            usage: Usage::StaticDraw
        }
    );
    assert_eq!(
        buffer.bind(),
        Command::BindBuffer { target: Target::ArrayBuffer, buffer: Some(id) }
    );
    assert_eq!(targets_of(&buffer.fill(&positions[..1])), vec![Target::ArrayBuffer; 3]);
    assert_eq!(buffer.vertex_count(), 1);
    assert_eq!(targets_of(&buffer.fill_subset(1, &positions)), vec![Target::ArrayBuffer; 3]);
    assert_eq!(buffer.vertex_count(), 3);
    assert_eq!(buffer.id(), id);
    assert_eq!(buffer.release(), Command::DeleteBuffer { buffer: id });
}

#[test]
fn instance_buffer_goes_through_the_array_slot() {
    let id = Handle(4);
    let mut buffer = InstanceBuffer::<[u8; 4]>::new(id);
    assert_eq!(buffer.instance_count(), 0);
    let commands = buffer.fill(&[[255, 0, 0, 255], [0, 255, 0, 255], [0, 0, 255, 255]]);
    assert_eq!(buffer.instance_count(), 3);
    assert_eq!(
        commands,
        vec![
            Command::BindBuffer { target: Target::ArrayBuffer, buffer: Some(id) },
            Command::BufferData {
                target: Target::ArrayBuffer,
                data: vec![255, 0, 0, 255, 0, 255, 0, 255, 0, 0, 255, 255],
                usage: Usage::StaticDraw
            },
            Command::BindBuffer { target: Target::ArrayBuffer, buffer: None },
        ]
    );
    let part = buffer.fill_subset(2, &[[1, 2, 3, 4]]);
    assert_eq!(
        part[1],
        Command::BufferSubData { target: Target::ArrayBuffer, offset: 8, data: vec![1, 2, 3, 4] }
    );
    assert_eq!(buffer.instance_count(), 3);
    assert_eq!(
        buffer.bind(),
        Command::BindBuffer { target: Target::ArrayBuffer, buffer: Some(id) }
    );
    let (empty, none) = InstanceBuffer::<[u8; 4]>::new_with_data(Handle(5), &[]);
    assert_eq!(empty.instance_count(), 0);
    assert!(none.is_empty());
    assert_eq!(empty.release(), Command::DeleteBuffer { buffer: Handle(5) });
}

#[test]
fn element_buffer_goes_through_the_element_slot() {
    let id = Handle(6);
    let (mut buffer, commands) =
        ElementBuffer::<u16>::new_with_data(id, &[0, 1, 2, 2, 1, 3, 3, 1]);
    assert_eq!(buffer.count(), 8);
    assert_eq!(buffer.triangle_count(), 2);
    assert_eq!(targets_of(&commands), vec![Target::ElementArrayBuffer; 3]);
    assert_eq!(
        buffer.bind(),
        Command::BindBuffer { target: Target::ElementArrayBuffer, buffer: Some(id) }
    );
    let again = buffer.fill(&[0, 1, 2]);
    assert_eq!(buffer.triangle_count(), 1);
    assert_eq!(targets_of(&again), vec![Target::ElementArrayBuffer; 3]);
    assert!(matches!(again[1], Command::BufferData { usage: Usage::DynamicDraw, .. }));
    let part = buffer.fill_subset(3, &[4, 5, 6]);
    assert_eq!(targets_of(&part), vec![Target::ElementArrayBuffer; 3]);
    assert!(matches!(part[1], Command::BufferSubData { offset: 6, .. }));
    assert_eq!(buffer.count(), 6);
    assert_eq!(buffer.release(), Command::DeleteBuffer { buffer: id });

    let bytes = ElementBuffer::<u8>::new(Handle(7));
    assert_eq!(bytes.triangle_count(), 0);
    let (words, _) = ElementBuffer::<u32>::new_with_data(Handle(8), &[0, 1, 2, 3, 4]);
    assert_eq!(words.triangle_count(), 1);
}

#[test]
fn uniform_buffer_goes_through_the_uniform_slot() {
    let id = Handle(9);
    let mut buffer = UniformBuffer::<[Float32; 4]>::with_byte_order(id, ByteOrder::BigEndian);
    assert_eq!(buffer.byte_order(), ByteOrder::BigEndian);
    assert_eq!(buffer.count(), 0);
    let colour = [bits(1.0), bits(0.5), bits(0.25), bits(1.0)];
    let commands = buffer.fill(&[colour]);
    assert_eq!(buffer.count(), 1);
    assert_eq!(
        commands,
        vec![
            Command::BindBuffer { target: Target::UniformBuffer, buffer: Some(id) },
            Command::BufferData {
                target: Target::UniformBuffer,
                data: vec![0x3F, 0x80, 0, 0, 0x3F, 0, 0, 0, 0x3E, 0x80, 0, 0, 0x3F, 0x80, 0, 0],
                usage: Usage::StaticDraw
            },
            Command::BindBuffer { target: Target::UniformBuffer, buffer: None },
        ]
    );
    assert_eq!(targets_of(&buffer.fill_subset(0, &[colour])), vec![Target::UniformBuffer; 3]);
    assert_eq!(
        buffer.bind(),
        Command::BindBuffer { target: Target::UniformBuffer, buffer: Some(id) }
    );
    let (other, first) = UniformBuffer::<u32>::new_with_data(Handle(10), &[1]);
    assert_eq!(other.count(), 1);
    assert_eq!(targets_of(&first), vec![Target::UniformBuffer; 3]);
    assert_eq!(buffer.release(), Command::DeleteBuffer { buffer: id });
}

#[test]
fn buffers_of_different_kinds_share_a_device() {
    let mut device = Device::new();
    let v = device.create_buffer().unwrap();
    let e = device.create_buffer().unwrap();
    let u = device.create_buffer().unwrap();
    let (vertices, a) = VertexBuffer::<u8>::new_with_data(v, &[1, 2, 3]);
    let (elements, b) = ElementBuffer::<u8>::new_with_data(e, &[0, 1, 2]);
    let (uniforms, c) = UniformBuffer::<u8>::new_with_data(u, &[7]);
    assert!(device.run(&a) && device.run(&b) && device.run(&c));
    assert!(device.execute(&vertices.bind()));
    assert!(device.execute(&elements.bind()));
    assert!(device.execute(&uniforms.bind()));
    assert_eq!(device.bound(Target::ArrayBuffer), Some(v));
    assert_eq!(device.bound(Target::ElementArrayBuffer), Some(e));
    assert_eq!(device.bound(Target::UniformBuffer), Some(u));
    assert!(device.execute(&elements.release()));
    assert_eq!(device.bound(Target::ArrayBuffer), Some(v));
    assert_eq!(device.bound(Target::ElementArrayBuffer), None);
    assert_eq!(device.contents(v), Some(vec![1, 2, 3]));
    assert_eq!(device.contents(u), Some(vec![7]));
    assert_eq!(device.contents(e), None);
}
