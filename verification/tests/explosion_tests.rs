use space_shooter::components::{BlastType, Position};
use space_shooter::explosion::{spawn_blast_explosion, spawn_explosion, AnimationType};

#[test]
fn explosion_command_carries_the_full_renderable_shape() {
    let data = spawn_explosion(3, Position { x: 11, y: 22 });
    assert_eq!(data.sprite_number, 3);
    assert_eq!(data.position, Position { x: 11, y: 22 });
    assert_eq!(data.animation.start_idx, 0);
    assert_eq!(data.animation.frame_count, 10);
    assert_eq!(data.animation.current_frame, 0);
    assert_eq!(data.animation.frame_time, 100);
    assert_eq!(data.animation.elapsed_time, 0);
    assert!(data.animation.forward);
    assert_eq!(data.animation.animation_type, AnimationType::Forward);
    // Lifetime covers the nine frame steps of a ten-frame animation.
    assert_eq!(data.duration, 900);
}

#[test]
fn blast_explosion_starts_at_the_row_of_its_flavour() {
    let cases = [
        (BlastType::Ally, 0usize),
        (BlastType::Enemy, 7usize),
        (BlastType::AllyCritical, 14usize),
        (BlastType::AllyPoison, 21usize),
    ];
    for (blast_type, frame) in cases {
        let data = spawn_blast_explosion(blast_type, Position { x: 0, y: 0 });
        assert_eq!(data.sprite_number, frame);
        assert_eq!(data.animation.start_idx, frame);
        assert_eq!(data.animation.current_frame, frame);
        assert_eq!(data.animation.frame_count, 7);
        assert_eq!(data.animation.frame_time, 80);
        assert_eq!(data.duration, 480);
    }
}
