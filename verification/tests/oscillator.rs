use dynth::oscillator::{table_neighbours, waveform_table, TABLE_SIZE};

#[test]
fn waveform_codes_pick_tables() {
    assert_eq!(waveform_table(0), 0);
    assert_eq!(waveform_table(1), 1);
    assert_eq!(waveform_table(2), 2);
    assert_eq!(waveform_table(3), 3);
}

#[test]
fn unknown_waveform_reads_triangle_table() {
    assert_eq!(waveform_table(99), 3);
    assert_eq!(waveform_table(255), 3);
}

#[test]
fn neighbours_wrap_at_table_end() {
    assert_eq!(TABLE_SIZE, 2048);
    assert_eq!(table_neighbours(0), (0, 1));
    assert_eq!(table_neighbours(1024), (1024, 1025));
    assert_eq!(table_neighbours(2047), (2047, 0));
    assert_eq!(table_neighbours(2048), (0, 1));
    assert_eq!(table_neighbours(4096 + 5), (5, 6));
}
