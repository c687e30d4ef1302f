use std::collections::HashSet;
use vardy::faq::{checkstitch_faq_categories, singlethread_faq_items};

#[test]
fn faq_items_all_non_empty() {
    let categories = checkstitch_faq_categories();
    for (i, category) in categories.iter().enumerate() {
        assert!(!category.title.is_empty(), "FAQ category {i} has empty title");
        assert!(!category.items.is_empty(), "FAQ category {i} has no items");
    }
    let all: Vec<_> = categories.iter().flat_map(|c| c.items.iter()).collect();
    for (i, item) in all.iter().enumerate() {
        assert!(!item.question.is_empty(), "FAQ item {i} has empty question");
        assert!(!item.answer.is_empty(), "FAQ item {i} has empty answer");
    }
}

#[test]
fn faq_items_no_duplicate_questions() {
    let categories = checkstitch_faq_categories();
    let mut seen = HashSet::new();
    for item in categories.iter().flat_map(|c| c.items.iter()) {
        assert!(seen.insert(item.question), "Duplicate FAQ question: {}", item.question);
    }
}

#[test]
fn web_faq_items_all_non_empty() {
    for (i, item) in singlethread_faq_items().iter().enumerate() {
        assert!(!item.question.is_empty(), "FAQ item {i} has empty question");
        assert!(!item.answer.is_empty(), "FAQ item {i} has empty answer");
    }
}

#[test]
fn faq_items_count() {
    assert_eq!(singlethread_faq_items().len(), 11);
}

#[test]
fn web_faq_items_no_duplicate_questions() {
    let mut seen = HashSet::new();
    for item in singlethread_faq_items() {
        assert!(seen.insert(item.question), "Duplicate FAQ question: {}", item.question);
    }
}

#[test]
fn checkstitch_categories_in_page_order() {
    let titles: Vec<_> = checkstitch_faq_categories().iter().map(|c| c.title).collect();
    assert_eq!(titles, vec!["Getting started", "Features", "Privacy", "Other"]);
    let privacy = &checkstitch_faq_categories()[2];
    assert_eq!(privacy.items[0].question, "Do you collect my data?");
    assert!(privacy.items[0].answer.contains("no analytics, no tracking, and no advertising"));
}

#[test]
fn faq_content_is_in_page_order() {
    let items = singlethread_faq_items();
    assert_eq!(items[0].question, "Where is my data stored?");
    assert!(items[0].answer.starts_with("Your Reminders are stored on your phone"));
    assert_eq!(items[1].question, "Why did you choose Apple Reminders?");
    assert_eq!(items[10].question, "How do I get started?");
    let categories = checkstitch_faq_categories();
    let titles: Vec<&str> = categories.iter().map(|c| c.title).collect();
    assert_eq!(titles, ["Getting started", "Features", "Privacy", "Other"]);
    assert_eq!(categories[2].items[0].question, "Do you collect my data?");
    assert_eq!(categories[3].items[2].question, "How do I get in touch?");
}
