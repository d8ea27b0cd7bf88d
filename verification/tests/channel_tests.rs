use space_shooter::commands::CommandBuffer;
use space_shooter::components::{EffectType, Position};
use space_shooter::commands::EffectSpawnCommand;
use space_shooter::events::EventChannel;
use space_shooter::math::{sat_add_i64, sat_sub_i64};

#[test]
fn channel_is_append_only_and_indexable() {
    let mut channel: EventChannel<i64> = EventChannel::new();
    assert_eq!(channel.len(), 0);
    channel.single_write(10);
    channel.single_write(-3);
    assert_eq!(channel.len(), 2);
    assert_eq!(*channel.get(0), 10);
    assert_eq!(*channel.get(1), -3);
}

#[test]
fn command_buffer_records_requests_in_order() {
    let mut commands = CommandBuffer::new();
    commands.request_delete(4);
    commands.request_effect(EffectSpawnCommand {
        effect_type: EffectType::AllyBlastExplosion,
        position: Position { x: 1, y: 2 },
    });
    commands.request_delete(2);
    assert_eq!(commands.deletions().as_slice(), &[4usize, 2usize]);
    assert_eq!(commands.effects().len(), 1);
    assert_eq!(commands.effects()[0].effect_type, EffectType::AllyBlastExplosion);
}

#[test]
fn saturating_arithmetic_clips_at_the_range_ends() {
    assert_eq!(sat_add_i64(1, 2), 3);
    assert_eq!(sat_sub_i64(1, 2), -1);
    assert_eq!(sat_add_i64(i64::MAX, 1), i64::MAX);
    assert_eq!(sat_sub_i64(i64::MIN, 1), i64::MIN);
    assert_eq!(sat_add_i64(i64::MIN, -1), i64::MIN);
    assert_eq!(sat_sub_i64(i64::MAX, -1), i64::MAX);
}
