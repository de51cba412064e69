use directed_channel::directed::DirectedChannel;
use directed_channel::directed::IDirectedChannel;
use directed_channel::MasterKey;

#[test]
fn test() {
    let mut master_key = MasterKey::create_unlimited();
    let (mut channel_pointer, read_only_data_pointer, mut writable_data_pointer) =
        DirectedChannel::create(0, 0);

    for i in 0..3 {
        let data_key = master_key.get_data_key();
        assert_eq!(*read_only_data_pointer.get(&channel_pointer, &data_key), i);
        *writable_data_pointer.get_mut(&mut channel_pointer, &data_key) = i + 1;

        let channel_key = data_key.into_channel_key();
        channel_pointer.flush(&channel_key);
    }

    let (read_only_data, writable_data) = DirectedChannel::destroy_single(
        channel_pointer,
        read_only_data_pointer,
        writable_data_pointer,
    );
    assert_eq!(read_only_data, 3);
    assert_eq!(writable_data, 3);
}

#[test]
fn ensure_channel_is_object_safe() {
    let mut master_key = MasterKey::create_unlimited();
    let (mut channel, read_only_data_pointer, writable_data_pointer) =
        DirectedChannel::create(1, 2);

    {
        let dyn_channel: &mut dyn IDirectedChannel = &mut channel;
        dyn_channel.flush(&master_key.get_channel_key());
    }

    assert_eq!(
        *read_only_data_pointer.get(&channel, &master_key.get_data_key()),
        2
    );
    assert_eq!(
        *writable_data_pointer.get(&channel, &master_key.get_data_key()),
        2
    );
    DirectedChannel::destroy_single(channel, read_only_data_pointer, writable_data_pointer);
}

#[test]
fn create_then_destroy_returns_initial() {
    let (channel_pointer, read_only_data_pointer, writable_data_pointer) =
        DirectedChannel::create(String::from("alpha"), String::from("beta"));
    let (read_only_data, writable_data) = channel_pointer.destroy_single(
        read_only_data_pointer,
        writable_data_pointer,
    );
    assert_eq!(read_only_data, "alpha");
    assert_eq!(writable_data, "beta");
}

#[test]
fn destroy_accepts_every_read_only_copy() {
    let mut master_key = MasterKey::create_unlimited();
    let (channel_pointer, read_only_data_pointer, writable_data_pointer) =
        DirectedChannel::create(10, 20);
    let first_copy = read_only_data_pointer;
    let second_copy = read_only_data_pointer.clone();
    let data_key = master_key.get_data_key();
    assert_eq!(*first_copy.get(&channel_pointer, &data_key), 10);
    assert_eq!(*second_copy.get(&channel_pointer, &data_key), 10);

    let copies = vec![read_only_data_pointer, first_copy, second_copy];
    let (read_only_data, writable_data) =
        channel_pointer.destroy(copies, writable_data_pointer);
    assert_eq!(read_only_data, 10);
    assert_eq!(writable_data, 20);
}

#[test]
fn create_equal_slots_equal_before_any_flush() {
    let mut master_key = MasterKey::create_unlimited();
    let (channel_pointer, read_only_data_pointer, writable_data_pointer) =
        DirectedChannel::create_equal(String::from("seed"));
    let data_key = master_key.get_data_key();
    assert_eq!(*read_only_data_pointer.get(&channel_pointer, &data_key), "seed");
    assert_eq!(*writable_data_pointer.get(&channel_pointer, &data_key), "seed");
    let (read_only_data, writable_data) = channel_pointer.destroy_single(
        read_only_data_pointer,
        writable_data_pointer,
    );
    assert_eq!(read_only_data, "seed");
    assert_eq!(writable_data, "seed");
}

#[test]
fn sequential_protocol_publishes_last_value() {
    let n: u64 = 25;
    let mut master_key = MasterKey::create_unlimited();
    let (mut channel_pointer, read_only_data_pointer, mut writable_data_pointer) =
        DirectedChannel::create(0, 0);

    for x in 1..=n {
        let data_key = master_key.get_data_key();
        *writable_data_pointer.get_mut(&mut channel_pointer, &data_key) = x;
        let channel_key = data_key.into_channel_key();
        channel_pointer.flush(&channel_key);
    }

    let (read_only_data, writable_data) = channel_pointer.destroy_single(
        read_only_data_pointer,
        writable_data_pointer,
    );
    assert_eq!(read_only_data, n);
    assert_eq!(writable_data, n);
}

#[test]
fn flush_is_idempotent() {
    let mut master_key = MasterKey::create_unlimited();
    let (mut channel_pointer, read_only_data_pointer, mut writable_data_pointer) =
        DirectedChannel::create(0, 0);

    let data_key = master_key.get_data_key();
    *writable_data_pointer.get_mut(&mut channel_pointer, &data_key) = 42;
    let channel_key = data_key.into_channel_key();
    channel_pointer.flush(&channel_key);

    let data_key = master_key.get_data_key();
    let after_first = *read_only_data_pointer.get(&channel_pointer, &data_key);
    let channel_key = data_key.into_channel_key();
    channel_pointer.flush(&channel_key);

    let data_key = master_key.get_data_key();
    let after_second = *read_only_data_pointer.get(&channel_pointer, &data_key);
    assert_eq!(after_first, 42);
    assert_eq!(after_second, after_first);

    let (read_only_data, writable_data) = channel_pointer.destroy_single(
        read_only_data_pointer,
        writable_data_pointer,
    );
    assert_eq!(read_only_data, 42);
    assert_eq!(writable_data, 42);
}

#[test]
fn reader_observes_written_values_in_order() {
    let k: u64 = 12;
    let mut master_key = MasterKey::create_unlimited();
    let (mut channel_pointer, read_only_data_pointer, mut writable_data_pointer) =
        DirectedChannel::create(0, 0);

    let mut observed = Vec::new();
    for i in 0..=k {
        let data_key = master_key.get_data_key();
        *writable_data_pointer.get_mut(&mut channel_pointer, &data_key) = i;
        let channel_key = data_key.into_channel_key();
        channel_pointer.flush(&channel_key);

        let data_key = master_key.get_data_key();
        observed.push(*read_only_data_pointer.get(&channel_pointer, &data_key));
    }

    let written: Vec<u64> = (0..=k).collect();
    let mut previous = observed[0];
    for &value in &observed {
        assert!(written.contains(&value));
        assert!(previous <= value);
        previous = value;
    }

    channel_pointer.destroy_single(read_only_data_pointer, writable_data_pointer);
}

#[test]
fn dynamic_flush_matches_concrete_flush() {
    let mut master_key = MasterKey::create_unlimited();
    let (mut dynamic_pointer, dynamic_read_only, mut dynamic_writable) =
        DirectedChannel::create(1, 2);
    let (mut concrete_pointer, concrete_read_only, mut concrete_writable) =
        DirectedChannel::create(1, 2);

    let data_key = master_key.get_data_key();
    *dynamic_writable.get_mut(&mut dynamic_pointer, &data_key) = 9;
    *concrete_writable.get_mut(&mut concrete_pointer, &data_key) = 9;

    let channel_key = data_key.into_channel_key();
    {
        let dyn_channel: &mut dyn IDirectedChannel = &mut dynamic_pointer;
        dyn_channel.flush(&channel_key);
    }
    concrete_pointer.flush(&channel_key);

    let data_key = master_key.get_data_key();
    assert_eq!(
        *dynamic_read_only.get(&dynamic_pointer, &data_key),
        *concrete_read_only.get(&concrete_pointer, &data_key)
    );
    assert_eq!(
        *dynamic_writable.get(&dynamic_pointer, &data_key),
        *concrete_writable.get(&concrete_pointer, &data_key)
    );

    let (dynamic_final_read_only, dynamic_final_writable) =
        dynamic_pointer.destroy_single(dynamic_read_only, dynamic_writable);
    let (concrete_final_read_only, concrete_final_writable) =
        concrete_pointer.destroy_single(concrete_read_only, concrete_writable);
    assert_eq!(dynamic_final_read_only, concrete_final_read_only);
    assert_eq!(dynamic_final_writable, concrete_final_writable);
    assert_eq!(dynamic_final_read_only, 9);
    assert_eq!(dynamic_final_writable, 9);
}

#[test]
fn heterogeneous_channels_flush_through_the_interface() {
    let mut master_key = MasterKey::create_unlimited();
    let (mut number_pointer, number_read_only, mut number_writable) =
        DirectedChannel::create(0u64, 0u64);
    let (mut text_pointer, text_read_only, mut text_writable) =
        DirectedChannel::create(String::new(), String::new());

    let data_key = master_key.get_data_key();
    *number_writable.get_mut(&mut number_pointer, &data_key) = 11;
    *text_writable.get_mut(&mut text_pointer, &data_key) = String::from("published");

    let channel_key = data_key.into_channel_key();
    {
        let mut batch: Vec<&mut dyn IDirectedChannel> = Vec::new();
        batch.push(&mut number_pointer);
        batch.push(&mut text_pointer);
        for channel in batch.iter_mut() {
            channel.flush(&channel_key);
        }
    }

    let data_key = master_key.get_data_key();
    assert_eq!(*number_read_only.get(&number_pointer, &data_key), 11);
    assert_eq!(*text_read_only.get(&text_pointer, &data_key), "published");

    number_pointer.destroy_single(number_read_only, number_writable);
    text_pointer.destroy_single(text_read_only, text_writable);
}
