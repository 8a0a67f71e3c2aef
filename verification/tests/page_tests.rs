use service_demos::graphql;
use service_demos::health;
use service_demos::pages::{
    about, banner_wanted, blog, contact_get, contact_post, dynamic, home, ContactForm,
};
use service_demos::throttle;

#[test]
fn simple_health_report_is_all_healthy() {
    let r = health::health_endpoint();
    assert_eq!(r.status, "healthy");
    assert_eq!(r.version, "1.0.0");
    assert_eq!(r.checks.database, "healthy");
    assert_eq!(r.checks.cache, "healthy");
}

#[test]
fn advanced_health_report_carries_the_time_stamp() {
    let r = health::health_advanced("2026-01-05T10:00:00+00:00".to_string());
    assert_eq!(r.status, "healthy");
    assert_eq!(r.version, "1.0.0");
    assert_eq!(r.timestamp, "2026-01-05T10:00:00+00:00");
    assert_eq!(r.checks.database.status, "healthy");
    assert_eq!(r.checks.database.response_time_ms, 10);
    assert_eq!(r.checks.cache.status, "healthy");
    assert_eq!(r.checks.cache.response_time_ms, 5);
}

#[test]
fn health_service_texts() {
    assert_eq!(health::index(), "Phase 11 Features Demo");
    assert_eq!(health::slow_endpoint(), "This should timeout");
    assert_eq!(health::SLOW_DELAY_SECS, 35);
    assert_eq!(health::ADVANCED_DELAY_MILLIS, 10);
}

#[test]
fn throttle_answers_carry_the_moment() {
    let r = throttle::limited_endpoint(1_700_000_000);
    assert_eq!(r.message, "This endpoint has strict rate limits");
    assert_eq!(r.timestamp, 1_700_000_000);
    let r = throttle::relaxed_endpoint(0);
    assert_eq!(r.message, "This endpoint has relaxed rate limits");
    assert_eq!(r.timestamp, 0);
    let r = throttle::index(u64::MAX);
    assert_eq!(
        r.message,
        "Rate Limiting Demo - Try /api/limited (5 req/min) or /api/relaxed (100 req/min)"
    );
    assert_eq!(r.timestamp, u64::MAX);
}

#[test]
fn throttle_health_has_no_limit() {
    let r = throttle::health();
    assert_eq!(r.status, "healthy");
    assert_eq!(r.requests_remaining, None);
}

#[test]
fn home_page_shows_four_features() {
    let p = home();
    assert_eq!(p.template, "index.html");
    assert_eq!(p.context.title, "Home");
    let got: Vec<(&str, &str)> =
        p.context.features.iter().map(|f| (f.name.as_str(), f.description.as_str())).collect();
    assert_eq!(
        got,
        vec![
            ("Type-Safe", "Compile-time route and schema validation"),
            ("Fast", "Built on Tokio and Hyper for maximum performance"),
            ("Easy", "Minimal boilerplate, intuitive API"),
            ("Documented", "Auto-generated OpenAPI + Swagger UI"),
        ]
    );
}

#[test]
fn about_page_shows_the_version_it_is_given() {
    let p = about("0.1.0");
    assert_eq!(p.template, "about.html");
    assert_eq!(p.context.title, "About");
    assert_eq!(p.context.version, "0.1.0");
    assert_eq!(p.context.rust_version, "1.75+");
}

#[test]
fn contact_page_before_and_after_sending() {
    let p = contact_get();
    assert_eq!(p.template, "contact.html");
    assert_eq!(p.context.title, "Contact");
    assert!(!p.context.submitted);
    assert_eq!(p.context.name, None);
    assert_eq!(p.context.message, None);

    let p = contact_post(ContactForm { name: Some("Ada".to_string()), message: None });
    assert_eq!(p.template, "contact.html");
    assert_eq!(p.context.title, "Contact");
    assert!(p.context.submitted);
    assert_eq!(p.context.name, Some("Ada".to_string()));
    assert_eq!(p.context.message, None);

    let p = contact_post(ContactForm { name: None, message: Some("hi".to_string()) });
    assert!(p.context.submitted);
    assert_eq!(p.context.name, None);
    assert_eq!(p.context.message, Some("hi".to_string()));
}

#[test]
fn blog_page_shows_three_posts() {
    let p = blog();
    assert_eq!(p.template, "blog.html");
    assert_eq!(p.context.title, "Blog");
    assert_eq!(p.context.posts.len(), 3);
    let first = &p.context.posts[0];
    assert_eq!(first.id, 1);
    assert_eq!(first.title, "Getting Started with RustAPI");
    assert_eq!(first.excerpt, "Learn how to build your first API with RustAPI...");
    assert_eq!(first.author, "RustAPI Team");
    assert_eq!(first.date, "2026-01-05");
    let second = &p.context.posts[1];
    assert_eq!(second.id, 2);
    assert_eq!(second.title, "WebSocket Support in RustAPI");
    assert_eq!(second.excerpt, "Real-time communication made easy...");
    assert_eq!(second.date, "2026-01-04");
    let third = &p.context.posts[2];
    assert_eq!(third.id, 3);
    assert_eq!(third.title, "Template Rendering with Tera");
    assert_eq!(third.excerpt, "Server-side rendering for your web apps...");
    assert_eq!(third.date, "2026-01-03");
}

#[test]
fn dynamic_page_holds_its_entries() {
    let p = dynamic();
    assert_eq!(p.template, "dynamic.html");
    assert_eq!(p.context.title, "Dynamic Page");
    assert_eq!(p.context.items, vec!["One", "Two", "Three"]);
    assert_eq!(p.context.count, 3);
    assert_eq!(p.context.show_banner, Some(true));
    assert!(banner_wanted(true));
    assert!(banner_wanted(false));
}

#[test]
fn catalogue_entry_page() {
    let r = graphql::index();
    assert_eq!(r.message, "GraphQL API Demo");
    assert_eq!(r.endpoints.graphql, "/graphql");
    assert_eq!(r.endpoints.playground, "/graphql (GET)");
    assert_eq!(
        r.example_query,
        "\n{\n  books {\n    id\n    title\n    author\n    year\n  }\n}\n        "
    );
    assert_eq!(r.example_query, graphql::example_query());
}

#[test]
fn query_answer_is_wrapped_unchanged() {
    let r = graphql::graphql_handler("{\"data\":{\"books\":[]}}".to_string());
    assert_eq!(r.response, "{\"data\":{\"books\":[]}}");
}

#[test]
fn console_page_points_at_the_query_endpoint() {
    let page = graphql::graphql_playground();
    assert!(page.starts_with("\n        <!DOCTYPE html>\n        <html>\n"));
    assert!(page.ends_with("</html>\n        "));
    assert!(page.contains("<title>GraphQL Playground</title>"));
    assert!(page.contains("endpoint: '/graphql',"));
    assert!(page.contains("'request.credentials': 'include'"));
    assert_eq!(page.lines().count(), 23);
}
