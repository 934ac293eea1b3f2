use std::collections::BTreeMap;

use field_index::decorators::ScheduledDelete;
use field_index::storage::ColumnOp;

type Column = BTreeMap<Vec<u8>, Vec<u8>>;

fn write(column: &mut Column, op: ColumnOp) {
    match op {
        ColumnOp::Put { key, value } => {
            column.insert(key, value);
        }
        ColumnOp::Remove { key } => {
            column.remove(&key);
        }
    }
}

fn flush(decorator: &mut ScheduledDelete, column: &mut Column) {
    for op in decorator.flusher().into_ops() {
        write(column, op);
    }
}

#[test]
fn put_is_handed_on_as_it_is() {
    let mut decorator = ScheduledDelete::new();
    let op = decorator.put(b"key", b"value");
    assert_eq!(op, ColumnOp::Put { key: b"key".to_vec(), value: b"value".to_vec() });
    let op = decorator.put(b"", b"");
    assert_eq!(op, ColumnOp::Put { key: vec![], value: vec![] });
}

#[test]
fn removed_key_is_read_until_the_flush() {
    let mut decorator = ScheduledDelete::new();
    let mut column = Column::new();
    write(&mut column, decorator.put(b"a", b"1"));
    write(&mut column, decorator.put(b"b", b"2"));

    decorator.remove(b"a");
    assert_eq!(column.get(b"a".as_slice()), Some(&b"1".to_vec()));

    flush(&mut decorator, &mut column);
    assert_eq!(column.get(b"a".as_slice()), None);
    assert_eq!(column.get(b"b".as_slice()), Some(&b"2".to_vec()));
}

#[test]
fn put_after_remove_keeps_the_row() {
    let mut decorator = ScheduledDelete::new();
    let mut column = Column::new();
    write(&mut column, decorator.put(b"a", b"1"));
    decorator.remove(b"a");
    write(&mut column, decorator.put(b"a", b"2"));
    flush(&mut decorator, &mut column);
    assert_eq!(column.get(b"a".as_slice()), Some(&b"2".to_vec()));
}

#[test]
fn flusher_drains_the_schedule() {
    let mut decorator = ScheduledDelete::new();
    decorator.remove(b"a");
    decorator.remove(b"b");
    decorator.remove(b"a");
    decorator.remove(b"c");
    decorator.put(b"b", b"x");

    let mut removed: Vec<Vec<u8>> = decorator
        .flusher()
        .into_ops()
        .into_iter()
        .map(|op| match op {
            ColumnOp::Remove { key } => key,
            ColumnOp::Put { .. } => panic!("a flusher only deletes"),
        })
        .collect();
    removed.sort();
    assert_eq!(removed, vec![b"a".to_vec(), b"c".to_vec()]);

    // what was handed out is not scheduled any more
    assert!(decorator.flusher().into_ops().is_empty());
}

#[test]
fn remove_after_the_flusher_waits_for_the_next() {
    let mut decorator = ScheduledDelete::new();
    let mut column = Column::new();
    write(&mut column, decorator.put(b"a", b"1"));
    write(&mut column, decorator.put(b"b", b"2"));
    decorator.remove(b"a");
    let flusher = decorator.flusher();
    decorator.remove(b"b");
    for op in flusher.into_ops() {
        write(&mut column, op);
    }
    assert_eq!(column.get(b"a".as_slice()), None);
    assert_eq!(column.get(b"b".as_slice()), Some(&b"2".to_vec()));
    flush(&mut decorator, &mut column);
    assert_eq!(column.get(b"b".as_slice()), None);
}

#[test]
fn keys_are_told_apart_byte_by_byte() {
    let mut decorator = ScheduledDelete::new();
    decorator.remove(&[1, 2, 3]);
    decorator.remove(&[1, 2]);
    decorator.remove(&[1, 2, 4]);
    decorator.put(&[1, 2], &[0]);
    let mut removed: Vec<ColumnOp> = decorator.flusher().into_ops();
    removed.sort_by_key(|op| match op {
        ColumnOp::Remove { key } => key.clone(),
        ColumnOp::Put { key, .. } => key.clone(),
    });
    assert_eq!(
        removed,
        vec![ColumnOp::Remove { key: vec![1, 2, 3] }, ColumnOp::Remove { key: vec![1, 2, 4] }]
    );
}
