use conveyor::chunk::chunks_of;

#[test]
fn chunks_preserve_order_and_values() {
    let data: Vec<u128> = vec![1, 2, 3, 4, 5];
    let chunks = chunks_of(&data, 2);
    assert_eq!(chunks, vec![vec![1u128, 2], vec![3, 4], vec![5]]);
    let rejoined: Vec<u128> = chunks.into_iter().flatten().collect();
    assert_eq!(rejoined, data);
}

#[test]
fn even_division_gives_full_chunks() {
    let data: Vec<u128> = vec![10, 20, 30, 40];
    let chunks = chunks_of(&data, 2);
    assert_eq!(chunks, vec![vec![10u128, 20], vec![30, 40]]);
}

#[test]
fn chunk_size_beyond_length_gives_one_chunk() {
    let data: Vec<u128> = vec![7, 8];
    let chunks = chunks_of(&data, 100);
    assert_eq!(chunks, vec![vec![7u128, 8]]);
}

#[test]
fn empty_sequence_gives_no_chunks() {
    let data: Vec<u128> = Vec::new();
    assert_eq!(chunks_of(&data, 3).len(), 0);
}

#[test]
fn twelve_hundred_by_five_hundred_gives_three_chunks() {
    let data: Vec<u128> = (1..=1200u128).collect();
    let chunks = chunks_of(&data, 500);
    assert_eq!(chunks.len(), 3);
    assert_eq!(chunks[0].len(), 500);
    assert_eq!(chunks[1].len(), 500);
    assert_eq!(chunks[2].len(), 200);
    assert_eq!(chunks[0][0], 1);
    assert_eq!(chunks[1][0], 501);
    assert_eq!(chunks[2][199], 1200);
}
