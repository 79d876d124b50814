use solar_grabber::reading::Reading;
use solar_grabber::services::hoymiles;
use solar_grabber::services::my_autarco::{
    api_url, login_url, service, ApiEnergy, ApiPower, Config, Service, POLL_INTERVAL,
};
use solar_grabber::services::{
    body_of, failure_of_status, get, is_error_status, Reply, ServiceError, Services,
};
use solar_grabber::services;

fn autarco() -> Service {
    service(Config {
        username: String::from("operator"),
        password: String::from("secret"),
        site_id: String::from("abc123"),
    })
}

#[test]
fn every_status_outside_200_to_299_reports_a_failure() {
    for status in [200, 201, 204, 250, 299] {
        assert!(!is_error_status(status), "{}", status);
    }
    for status in [0, 100, 199, 300, 302, 304, 399, 400, 401, 404, 499, 500, 503, 599, 600, 999, u16::MAX] {
        assert!(is_error_status(status), "{}", status);
    }
}

#[test]
fn statuses_report_their_failure() {
    for status in [200, 201, 204, 299] {
        assert_eq!(failure_of_status(status), None, "{}", status);
    }
    assert_eq!(failure_of_status(401), Some(ServiceError::NotAuthorized));
    for status in [0, 100, 199, 300, 302, 400, 402, 403, 404, 500, 503, 599, 600, u16::MAX] {
        assert_eq!(failure_of_status(status), Some(ServiceError::Transport), "{}", status);
    }
}

#[test]
fn reply_gives_its_body_or_the_failure() {
    assert_eq!(body_of(Reply::Received { status: 200, body: Some(5u8) }), Ok(5));
    assert_eq!(body_of(Reply::Received { status: 299, body: Some(5u8) }), Ok(5));
    for status in [100, 199, 300, 302, 304, 400, 403, 500, 600] {
        assert_eq!(
            body_of(Reply::Received { status, body: Some(5u8) }),
            Err(ServiceError::Transport)
        );
        assert_eq!(
            body_of(Reply::<u8>::Received { status, body: None }),
            Err(ServiceError::Transport)
        );
    }
    assert_eq!(body_of(Reply::<u8>::Unreachable), Err(ServiceError::Transport));
    assert_eq!(
        body_of(Reply::<u8>::Received { status: 200, body: None }),
        Err(ServiceError::Malformed)
    );
    assert_eq!(
        body_of(Reply::Received { status: 401, body: Some(5u8) }),
        Err(ServiceError::NotAuthorized)
    );
    assert_eq!(
        body_of(Reply::<u8>::Received { status: 401, body: None }),
        Err(ServiceError::NotAuthorized)
    );
}

#[test]
fn autarco_urls_name_site_and_endpoint() {
    assert_eq!(login_url().unwrap().as_str(), "https://my.autarco.com/auth/login");
    assert_eq!(
        api_url("abc123", "energy").unwrap().as_str(),
        "https://my.autarco.com/api/site/abc123/kpis/energy"
    );
    assert_eq!(
        api_url("x y", "power").unwrap().as_str(),
        "https://my.autarco.com/api/site/x%20y/kpis/power"
    );
    let service = autarco();
    assert_eq!(
        service.energy_url().unwrap().as_str(),
        "https://my.autarco.com/api/site/abc123/kpis/energy"
    );
    assert_eq!(
        service.power_url().unwrap().as_str(),
        "https://my.autarco.com/api/site/abc123/kpis/power"
    );
}

#[test]
fn autarco_polls_every_five_minutes() {
    assert_eq!(POLL_INTERVAL, 300);
    assert_eq!(autarco().poll_interval(), 300);
}

#[test]
fn autarco_logs_in_with_its_configuration() {
    let form = autarco().login_form();
    assert_eq!(form.username, "operator");
    assert_eq!(form.password, "secret");
}

#[test]
fn autarco_login_goes_by_the_status() {
    let service = autarco();
    assert_eq!(service.login(&Reply::Received { status: 200, body: Some(()) }), Ok(()));
    assert_eq!(service.login(&Reply::<()>::Received { status: 204, body: None }), Ok(()));
    assert_eq!(
        service.login(&Reply::<()>::Received { status: 401, body: None }),
        Err(ServiceError::NotAuthorized)
    );
    for status in [100, 199, 300, 302, 304, 400, 403, 404, 500, 599, 600] {
        assert_eq!(
            service.login(&Reply::<()>::Received { status, body: None }),
            Err(ServiceError::Transport),
            "{}",
            status
        );
        assert_eq!(
            service.login(&Reply::Received { status, body: Some(()) }),
            Err(ServiceError::Transport),
            "{}",
            status
        );
    }
    assert_eq!(service.login(&Reply::<()>::Unreachable), Err(ServiceError::Transport));
}

#[test]
fn autarco_update_asks_energy_then_power() {
    let mut service = autarco();
    assert_eq!(service.total_wh(), 0);
    let energy = service
        .energy(Reply::Received { status: 200, body: Some(ApiEnergy { pv_to_date: 1_234 }) })
        .unwrap();
    let reading =
        service.power(1_000, energy, Reply::Received { status: 200, body: Some(ApiPower { pv_now: 245 }) });
    assert_eq!(
        reading,
        Ok(Reading { current_power_mw: 245_000, total_energy_wh: 1_234_000, observed_at: 1_000 })
    );
    assert_eq!(reading.unwrap().total_energy_wh as f64 / 1000.0, 1234.0);
    assert_eq!(service.total_wh(), 1_234_000);
}

fn poll(service: &mut Service, timestamp: u64, pv_to_date: u32, pv_now: u32) -> Reading {
    let energy = service
        .energy(Reply::Received { status: 200, body: Some(ApiEnergy { pv_to_date }) })
        .unwrap();
    service
        .power(timestamp, energy, Reply::Received { status: 200, body: Some(ApiPower { pv_now }) })
        .unwrap()
}

#[test]
fn autarco_total_that_the_vendor_lowers_is_masked() {
    let mut service = autarco();
    let first = poll(&mut service, 1_000, 100, 5);
    assert_eq!(
        first,
        Reading { current_power_mw: 5_000, total_energy_wh: 100_000, observed_at: 1_000 }
    );
    let second = poll(&mut service, 1_300, 90, 6);
    assert_eq!(
        second,
        Reading { current_power_mw: 6_000, total_energy_wh: 100_000, observed_at: 1_300 }
    );
    assert_eq!(service.total_wh(), 100_000);
    let third = poll(&mut service, 1_600, 100, 7);
    assert_eq!(third.total_energy_wh, 100_000);
    let fourth = poll(&mut service, 1_900, 101, 8);
    assert_eq!(fourth.total_energy_wh, 101_000);
    assert_eq!(service.total_wh(), 101_000);
}

#[test]
fn autarco_failed_poll_leaves_the_total_alone() {
    let mut service = autarco();
    poll(&mut service, 1_000, 100, 5);
    let energy = ApiEnergy { pv_to_date: 200 };
    assert_eq!(
        service.power(1_300, energy, Reply::Received { status: 500, body: None }),
        Err(ServiceError::Transport)
    );
    assert_eq!(service.power(1_300, energy, Reply::Unreachable), Err(ServiceError::Transport));
    assert_eq!(
        service.power(1_300, energy, Reply::Received { status: 200, body: None }),
        Err(ServiceError::Malformed)
    );
    assert_eq!(service.total_wh(), 100_000);
}

#[test]
fn autarco_reading_holds_the_largest_values() {
    let mut service = autarco();
    let reading = service.power(
        u64::MAX,
        ApiEnergy { pv_to_date: u32::MAX },
        Reply::Received { status: 200, body: Some(ApiPower { pv_now: u32::MAX }) },
    );
    assert_eq!(
        reading,
        Ok(Reading {
            current_power_mw: 4_294_967_295_000,
            total_energy_wh: 4_294_967_295_000,
            observed_at: u64::MAX,
        })
    );
}

#[test]
fn autarco_expired_session_shows_at_either_endpoint() {
    let mut service = autarco();
    assert_eq!(
        service.energy(Reply::Received { status: 401, body: None }),
        Err(ServiceError::NotAuthorized)
    );
    assert_eq!(
        service.energy(Reply::Received { status: 500, body: None }),
        Err(ServiceError::Transport)
    );
    assert_eq!(service.energy(Reply::Unreachable), Err(ServiceError::Transport));
    assert_eq!(
        service.energy(Reply::Received { status: 200, body: None }),
        Err(ServiceError::Malformed)
    );
    let energy = ApiEnergy { pv_to_date: 1 };
    assert_eq!(
        service.power(1, energy, Reply::Received { status: 401, body: None }),
        Err(ServiceError::NotAuthorized)
    );
    assert_eq!(
        service.power(1, energy, Reply::Received { status: 401, body: Some(ApiPower { pv_now: 5 }) }),
        Err(ServiceError::NotAuthorized)
    );
    assert_eq!(
        service.power(1, energy, Reply::Received { status: 500, body: None }),
        Err(ServiceError::Transport)
    );
    assert_eq!(service.total_wh(), 0);
    assert_eq!(service.power(1, energy, Reply::Unreachable), Err(ServiceError::Transport));
    assert_eq!(
        service.power(1, energy, Reply::Received { status: 200, body: None }),
        Err(ServiceError::Malformed)
    );
}

#[test]
fn service_is_chosen_by_the_configuration() {
    let service = get(services::Config::MyAutarco(Config {
        username: String::from("operator"),
        password: String::from("secret"),
        site_id: String::from("abc123"),
    }));
    assert_eq!(service.poll_interval(), 300);
    match service {
        Services::MyAutarco(service) => {
            assert_eq!(service.login_form().username, "operator");
            assert_eq!(service.total_wh(), 0);
        }
        Services::Hoymiles(_) => panic!("wrong service"),
    }
    let service = get(services::Config::Hoymiles(hoymiles::Config {
        username: String::from("operator"),
        password: String::from("secret"),
        sid: 7,
    }));
    assert_eq!(service.poll_interval(), 300);
    match service {
        Services::Hoymiles(service) => {
            assert_eq!(service.update_request().body.sid, 7);
            assert_eq!(service.total_wh(), 0);
        }
        Services::MyAutarco(_) => panic!("wrong service"),
    }
}
