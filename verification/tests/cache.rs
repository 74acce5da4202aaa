use std::collections::BTreeSet;
use std::convert::Infallible;

use telepass::cache::Cache;
use telepass::storage::Record;

fn record(resource: String, passhash: String, salt: String) -> Record {
    Record {
        resource_name: resource,
        encrypted_payload: passhash.into_bytes(),
        salt: salt.into_bytes(),
    }
}

fn create_records(n: usize) -> Vec<Record> {
    (0..n)
        .map(|i| {
            record(
                format!("Sample resource #{i}"),
                format!("some_secret_hash_{i}"),
                format!("some_salt_{i}"),
            )
        })
        .collect()
}

#[test]
fn load_should_take_exact_size_records() {
    let mut cache = Cache::load(3, create_records(5));

    let presented_record = cache
        .get_or_try_insert_with(
            &String::from("Sample resource #2"),
            || -> Result<_, Infallible> { panic!("Shouldn't be called") },
        )
        .unwrap();
    assert_eq!(
        presented_record,
        record(
            String::from("Sample resource #2"),
            String::from("some_secret_hash_2"),
            String::from("some_salt_2"),
        )
    );

    let sample_record = record(
        String::from("Sample sample"),
        String::from("sample"),
        String::from("sample"),
    );
    let not_presented_record = cache
        .get_or_try_insert_with(
            &String::from("Sample resource #3"),
            || -> Result<_, Infallible> { Ok(sample_record.clone()) },
        )
        .unwrap();
    assert_eq!(not_presented_record, sample_record);
}

#[test]
fn load_should_take_all_resource_names() {
    let cache = Cache::load(3, create_records(10));

    let resources = cache.get_all_resources();
    assert_eq!(
        resources.iter().cloned().collect::<BTreeSet<String>>(),
        create_records(10)
            .into_iter()
            .map(|record| record.resource_name)
            .collect()
    );
}

#[test]
fn add_should_work() {
    let mut cache = Cache::load(3, create_records(2));

    let resource = String::from("Sample sample");
    let sample_record = record(resource.clone(), String::from("sample"), String::from("sample"));
    cache.add(sample_record.clone());

    let found = cache
        .get_or_try_insert_with(&resource, || -> Result<_, Infallible> {
            panic!("Shouldn't be called")
        })
        .unwrap();
    assert_eq!(found, sample_record);

    let resources = cache.get_all_resources();
    assert_eq!(
        resources.iter().cloned().collect::<BTreeSet<String>>(),
        create_records(2)
            .into_iter()
            .chain(std::iter::once(sample_record))
            .map(|r| r.resource_name)
            .collect()
    );
}

#[test]
fn add_should_replace_the_least_usable() {
    let mut cache = Cache::load(3, create_records(3));

    // Increasing usage rate
    for i in (0..3).chain(1..3) {
        cache
            .get_or_try_insert_with(
                &format!("Sample resource #{i}"),
                || -> Result<_, Infallible> { panic!("Shouldn't be called") },
            )
            .unwrap();
    }

    let sample_record = record(
        String::from("Sample sample"),
        String::from("sample"),
        String::from("sample"),
    );
    cache.add(sample_record);

    let mut called = false;
    cache
        .get_or_try_insert_with(
            &String::from("Sample resource #0"),
            || -> Result<_, Infallible> {
                called = true;
                Ok(create_records(1).into_iter().next().unwrap())
            },
        )
        .unwrap();
    assert!(called);
}

#[test]
fn invalidate_should_work() {
    let mut cache = Cache::load(3, create_records(3));

    let resource = String::from("Sample resource #1");
    cache.invalidate(&resource);

    let new_sample_record = record(
        resource.clone(),
        String::from("new sample"),
        String::from("new sample"),
    );
    let new_record = cache
        .get_or_try_insert_with(&resource, || -> Result<_, Infallible> {
            Ok(new_sample_record.clone())
        })
        .unwrap();
    assert_eq!(new_record, new_sample_record);
}

#[test]
fn invalidated_resource_is_no_longer_listed() {
    let mut cache = Cache::load(3, create_records(3));
    cache.invalidate(&String::from("Sample resource #1"));
    assert_eq!(
        cache.get_all_resources(),
        vec![
            String::from("Sample resource #0"),
            String::from("Sample resource #2")
        ]
    );
}

#[test]
fn listed_resources_are_sorted_and_unique() {
    let mut records = create_records(3);
    records.reverse();
    records.push(record(
        String::from("Sample resource #1"),
        String::from("again"),
        String::from("again"),
    ));
    let cache = Cache::load(10, records);
    assert_eq!(
        cache.get_all_resources(),
        vec![
            String::from("Sample resource #0"),
            String::from("Sample resource #1"),
            String::from("Sample resource #2")
        ]
    );
}

#[test]
fn load_keeps_the_last_record_of_a_resource() {
    let mut records = create_records(2);
    records.push(record(
        String::from("Sample resource #0"),
        String::from("newer"),
        String::from("newer"),
    ));
    let mut cache = Cache::load(5, records);
    let found = cache
        .get_or_try_insert_with(&String::from("Sample resource #0"), || -> Result<_, Infallible> {
            panic!("Shouldn't be called")
        })
        .unwrap();
    assert_eq!(found.encrypted_payload, b"newer".to_vec());
}

#[test]
fn failed_fetch_leaves_the_cache_unchanged() {
    let mut cache = Cache::load(3, create_records(1));
    let error = cache
        .get_or_try_insert_with(&String::from("missing"), || -> Result<Record, &str> {
            Err("no such record")
        })
        .unwrap_err();
    assert_eq!(error, "no such record");
    assert_eq!(cache.get_all_resources(), vec![String::from("Sample resource #0")]);
}

#[test]
fn fetched_record_is_cached_and_listed() {
    let mut cache = Cache::load(3, Vec::new());
    let fetched = record(String::from("b"), String::from("x"), String::from("y"));
    let copy = fetched.clone();
    cache
        .get_or_try_insert_with(&String::from("b"), move || -> Result<_, Infallible> { Ok(copy) })
        .unwrap();
    let again = cache
        .get_or_try_insert_with(&String::from("b"), || -> Result<_, Infallible> {
            panic!("Shouldn't be called")
        })
        .unwrap();
    assert_eq!(again, fetched);
    assert_eq!(cache.get_all_resources(), vec![String::from("b")]);
}
