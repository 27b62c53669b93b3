use edwloef_plugins::entry::{same_text, FactoryEntry, PluginFactory};
use edwloef_plugins::heater::Heater;
use edwloef_plugins::ports::{port_count, port_info};
use edwloef_plugins::process::{batch_samples, channel_use, ChannelKind, ChannelUse, ProcessError};
use edwloef_plugins::state::{decode_value, encode_state, encode_value, ByteOrder};
use edwloef_plugins::vice::Vice;

#[test]
fn one_main_stereo_port() {
    assert_eq!(port_count(true), 1);
    assert_eq!(port_count(false), 1);
    let p = port_info(0, true).unwrap();
    assert_eq!(p.id, 0);
    assert_eq!(p.name, "main");
    assert_eq!(p.channel_count, 2);
    assert!(p.main && p.stereo);
    assert_eq!(p.in_place_pair, Some(0));
    assert!(port_info(1, false).is_none());
}

#[test]
fn channels_without_both_sides_fail() {
    assert_eq!(channel_use(ChannelKind::InPlace), Ok(ChannelUse::InPlace));
    assert_eq!(channel_use(ChannelKind::InputOutput), Ok(ChannelUse::InputToOutput));
    assert_eq!(channel_use(ChannelKind::InputOnly), Err(ProcessError::NoOutputChannel));
    assert_eq!(channel_use(ChannelKind::OutputOnly), Err(ProcessError::NoInputChannel));
}

#[test]
fn error_messages() {
    assert_eq!(ProcessError::NoAudioPorts.message(), "No audio ports found");
    assert_eq!(ProcessError::NoF32Channels.message(), "No f32 channels provided");
    assert_eq!(ProcessError::NoOutputChannel.message(), "No output channel provided");
    assert_eq!(ProcessError::NoInputChannel.message(), "No input channel provided");
}

#[test]
fn batch_covers_up_to_next_batch() {
    assert_eq!(batch_samples(0, Some(32), 128), (0, 32));
    assert_eq!(batch_samples(32, None, 128), (32, 128));
}

#[test]
fn value_bytes_in_both_orders() {
    let one = 1.0f32.to_bits();
    assert_eq!(encode_value(one, ByteOrder::Little), 1.0f32.to_le_bytes());
    assert_eq!(encode_value(one, ByteOrder::Big), 1.0f32.to_be_bytes());
    assert_eq!(encode_value(0x0102_0304, ByteOrder::Little), [4, 3, 2, 1]);
    assert_eq!(decode_value([4, 3, 2, 1], ByteOrder::Little), 0x0102_0304);
    assert_eq!(decode_value([1, 2, 3, 4], ByteOrder::Big), 0x0102_0304);
    let native = if u32::from_ne_bytes([1, 0, 0, 0]) == 1 { ByteOrder::Little } else { ByteOrder::Big };
    assert_eq!(encode_value((-12.0f32).to_bits(), native), (-12.0f32).to_ne_bytes());
}

#[test]
fn state_reads_back() {
    let values = vec![1.0f32.to_bits(), 0.25f32.to_bits(), (-3.5f32).to_bits()];
    for order in [ByteOrder::Little, ByteOrder::Big] {
        let bytes = encode_state(&values, order);
        assert_eq!(bytes.len(), 12);
        for (i, v) in values.iter().enumerate() {
            let chunk: [u8; 4] = bytes[4 * i..4 * i + 4].try_into().unwrap();
            assert_eq!(decode_value(chunk, order), *v);
        }
    }
    let bytes = encode_state(&values, ByteOrder::Little);
    assert_eq!(&bytes[0..4], &1.0f32.to_le_bytes());
    assert!(encode_state(&vec![], ByteOrder::Big).is_empty());
}

#[test]
fn texts_compare_by_content() {
    assert!(same_text("com.edwloef.vice", "com.edwloef.vice"));
    assert!(!same_text("com.edwloef.vice", "com.edwloef.heater"));
    assert!(!same_text("é", "e"));
    assert!(same_text("", ""));
}

#[test]
fn factory_finds_plugins() {
    let factory = PluginFactory {
        first: FactoryEntry { id: Heater::ID, descriptor: Heater::descriptor("1.0") },
        second: FactoryEntry { id: Vice::ID, descriptor: Vice::descriptor("1.0") },
    };
    assert_eq!(factory.plugin_count(), 2);
    assert_eq!(factory.plugin_index("com.edwloef.heater"), Some(0));
    assert_eq!(factory.plugin_index("com.edwloef.vice"), Some(1));
    assert_eq!(factory.plugin_index("com.edwloef.dcc"), None);
    let d = factory.plugin_descriptor(1).unwrap();
    assert_eq!(d.id().unwrap().to_str().unwrap(), "com.edwloef.vice");
    assert!(factory.plugin_descriptor(2).is_none());
    for i in 0..factory.plugin_count() {
        let id = factory.plugin_descriptor(i).unwrap().id().unwrap().to_str().unwrap();
        assert_eq!(factory.plugin_index(id), Some(i));
    }
}
