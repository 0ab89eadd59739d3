use dewy::comms::UploadQueue;
use dewy::networking::{DNSAddress, UploadData, UploadDataSource, WebClient};
use dewy::soil_estimator::FilteredMessurement;

fn host() -> String {
    String::from("www.mobile-j.de")
}

#[test]
fn fresh_cache_has_no_address() {
    let d = DNSAddress::new(host(), 3_600_000, 80);
    assert_eq!(d.get_adress(0), None);
    assert!(d.needs_querry(0));
}

#[test]
fn first_address_of_result_is_cached_with_ttl() {
    let mut d = DNSAddress::new(host(), 3_600_000, 80);
    let got = d.get_or_querry(1_000, Some(vec![0x0A00_0001, 0x0A00_0002]));
    assert_eq!(got, Some(0x0A00_0001));
    assert_eq!(d.address, Some((0x0A00_0001, 3_601_000)));
}

#[test]
fn second_resolution_within_ttl_serves_cache_without_query() {
    let mut d = DNSAddress::new(host(), 3_600_000, 80);
    d.get_or_querry(1_000, Some(vec![0x0A00_0001]));
    // Within the TTL window no query is needed ...
    assert!(!d.needs_querry(3_600_999));
    // ... and a resolution without any query outcome returns the
    // identical address.
    let again = d.get_or_querry(3_600_999, None);
    assert_eq!(again, Some(0x0A00_0001));
    assert_eq!(d.address, Some((0x0A00_0001, 3_601_000)));
}

#[test]
fn expired_entry_is_never_served() {
    let mut d = DNSAddress::new(host(), 3_600_000, 80);
    d.get_or_querry(1_000, Some(vec![0x0A00_0001]));
    // At the expiry instant the entry is stale: a new query is due.
    assert_eq!(d.get_adress(3_601_000), None);
    assert!(d.needs_querry(3_601_000));
    // The next resolution caches the fresh result.
    let got = d.get_or_querry(3_601_000, Some(vec![0x0A00_0003]));
    assert_eq!(got, Some(0x0A00_0003));
    assert_eq!(d.address, Some((0x0A00_0003, 7_201_000)));
}

#[test]
fn empty_or_failed_query_yields_nothing_and_keeps_state() {
    let mut d = DNSAddress::new(host(), 3_600_000, 80);
    assert_eq!(d.get_or_querry(5, Some(vec![])), None);
    assert_eq!(d.address, None);
    assert_eq!(d.get_or_querry(5, None), None);
    assert_eq!(d.address, None);
}

#[test]
fn endpoint_carries_configured_port() {
    let mut d = DNSAddress::new(host(), 3_600_000, 8080);
    let ep = d.querry_endpoint(0, Some(vec![0x7F00_0001]));
    assert_eq!(ep, Some((0x7F00_0001, 8080)));
}

#[test]
fn batch_fills_to_ten_and_rejects_eleventh() {
    let mut data = UploadData::new();
    assert_eq!(data.batch_len(), 0);
    for i in 0..10u64 {
        let m = FilteredMessurement { moisture: i, temperature: 100 + i };
        assert!(data.push_messurement(m));
    }
    assert_eq!(data.batch_len(), 10);
    let extra = FilteredMessurement { moisture: 7, temperature: 7 };
    assert!(!data.push_messurement(extra));
    assert_eq!(data.batch_len(), 10);
}

#[test]
fn ready_to_tx_drains_the_queue_in_order() {
    let mut sources = UploadDataSource { messurements: UploadQueue::new() };
    for i in 0..3u64 {
        assert!(sources.messurements.try_send((i, 30 + i)));
    }
    let mut data = UploadData::new();
    // Three samples are not enough: everything is drained, not ready.
    assert!(!data.ready_to_tx(&mut sources));
    assert_eq!(data.batch_len(), 3);
    assert_eq!(sources.messurements.len(), 0);
}

#[test]
fn ready_to_tx_stops_at_capacity() {
    let mut sources = UploadDataSource { messurements: UploadQueue::new() };
    for i in 0..12u64 {
        assert!(sources.messurements.try_send((i, i)));
    }
    let mut data = UploadData::new();
    assert!(data.ready_to_tx(&mut sources));
    assert_eq!(data.batch_len(), 10);
    // The two youngest samples stay queued for the next batch.
    assert_eq!(sources.messurements.len(), 2);
    assert_eq!(sources.messurements.try_receive(), Some((10, 10)));
    assert_eq!(sources.messurements.try_receive(), Some((11, 11)));
}

#[test]
fn ready_to_tx_on_full_batch_takes_nothing() {
    let mut sources = UploadDataSource { messurements: UploadQueue::new() };
    assert!(sources.messurements.try_send((5, 5)));
    let mut data = UploadData::new();
    for i in 0..10u64 {
        data.push_messurement(FilteredMessurement { moisture: i, temperature: i });
    }
    assert!(data.ready_to_tx(&mut sources));
    assert_eq!(data.batch_len(), 10);
    assert_eq!(sources.messurements.len(), 1);
}

#[test]
fn successful_cycle_builds_requests_and_discards_batch() {
    let mut client = WebClient::new();
    let mut dns = DNSAddress::new(host(), 3_600_000, 80);
    let mut data = UploadData::new();
    for i in 0..4u64 {
        data.push_messurement(FilteredMessurement { moisture: i, temperature: i });
    }
    let plan = client
        .update_server(&mut dns, &mut data, 0, Some(vec![0xC0A8_0001]))
        .expect("an address was resolved");
    assert_eq!(plan.endpoint_ip, 0xC0A8_0001);
    assert_eq!(plan.endpoint_port, 80);
    assert_eq!(
        plan.auth_request,
        "GET /auth HTTP/1.0\r\nHost: www.mobile-j.de\r\nAuthorization: HANDSHAKE\r\nConnection: keep-alive\r\nUser-Agent: Dewy\r\n\r\n"
    );
    assert_eq!(plan.get_request, "GET / HTTP/1.0\r\nHost: www.mobile-j.de\r\n\r\n");
    // The batch is discarded by the cycle.
    assert_eq!(data.batch_len(), 0);
}

#[test]
fn failed_cycle_still_discards_batch() {
    let mut client = WebClient::new();
    let mut dns = DNSAddress::new(host(), 3_600_000, 80);
    let mut data = UploadData::new();
    for i in 0..10u64 {
        data.push_messurement(FilteredMessurement { moisture: i, temperature: i });
    }
    // No cached address and no query result: the cycle aborts ...
    let plan = client.update_server(&mut dns, &mut data, 0, None);
    assert!(plan.is_none());
    // ... and the batch is empty all the same: the next cycle starts
    // without leftovers.
    assert_eq!(data.batch_len(), 0);
}

#[test]
fn cycle_with_cached_address_ignores_query_result() {
    let mut client = WebClient::new();
    let mut dns = DNSAddress::new(host(), 3_600_000, 80);
    let mut data = UploadData::new();
    dns.get_or_querry(0, Some(vec![0x0A00_0001]));
    let plan = client.update_server(&mut dns, &mut data, 10, Some(vec![0x0B00_0002]));
    assert_eq!(plan.expect("cache was fresh").endpoint_ip, 0x0A00_0001);
    assert_eq!(dns.address, Some((0x0A00_0001, 3_600_000)));
}
