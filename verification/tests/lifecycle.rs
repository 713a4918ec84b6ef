use valkey_glide::lifecycle::{ClientHandle, Owner, Release, Resource};

/// Stands in for the native allocator: records every release call made.
struct TrackingAllocator {
    freed: Vec<Release>,
}

impl TrackingAllocator {
    fn perform(&mut self, owed: Option<Release>) {
        if let Some(release) = owed {
            assert!(!self.freed.contains(&release), "released twice: {:?}", release);
            self.freed.push(release);
        }
    }
}

#[test]
fn close_twice_is_a_no_op_the_second_time() {
    let mut handle = ClientHandle::new(0x2000);
    assert!(handle.is_open());
    assert_eq!(handle.close(), Some(Release { resource: Resource::Client, address: 0x2000 }));
    assert!(!handle.is_open());
    assert_eq!(handle.address(), 0);
    assert_eq!(handle.close(), None);
    assert!(!handle.is_open());
    assert_eq!(handle.address(), 0);
}

#[test]
fn command_result_is_never_released_twice() {
    let mut native = TrackingAllocator { freed: Vec::new() };
    let mut owner = Owner::adopt(Resource::CommandResult, 0x3000);
    for _ in 0..5 {
        let owed = owner.release();
        native.perform(owed);
    }
    assert_eq!(native.freed, vec![Release { resource: Resource::CommandResult, address: 0x3000 }]);
}

#[test]
fn owner_of_nothing_releases_nothing() {
    let mut native = TrackingAllocator { freed: Vec::new() };
    let mut owner = Owner::adopt(Resource::ConnectionResponse, 0);
    assert!(!owner.is_live());
    let owed = owner.release();
    native.perform(owed);
    assert!(native.freed.is_empty());
}

#[test]
fn owner_keeps_its_kind_and_address_until_released() {
    let mut owner = Owner::adopt(Resource::ConnectionResponse, 77);
    assert!(owner.is_live());
    assert_eq!(owner.resource(), Resource::ConnectionResponse);
    assert_eq!(owner.address(), 77);
    assert_eq!(owner.release(), Some(Release { resource: Resource::ConnectionResponse, address: 77 }));
    assert_eq!(owner.resource(), Resource::ConnectionResponse);
    assert_eq!(owner.address(), 0);
}
