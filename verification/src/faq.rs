//! The frequently asked questions shown on the app pages.
use vstd::prelude::*;

verus! {

/// One question and its answer.
#[derive(Debug, Clone, Copy)]
pub struct FaqItem {
    pub question: &'static str,
    pub answer: &'static str,
}

/// A titled group of questions.
#[derive(Debug)]
pub struct FaqCategory {
    pub title: &'static str,
    pub items: Vec<FaqItem>,
}

/// Every question and answer of `items` has text.
pub open spec fn all_non_empty(items: Seq<FaqItem>) -> bool {
    forall|i: int| 0 <= i < items.len() ==> (#[trigger] items[i]).question@.len() > 0 && items[i].answer@.len() > 0
}

/// No question of `items` is asked twice.
pub open spec fn distinct_questions(items: Seq<FaqItem>) -> bool {
    forall|i: int, j: int| 0 <= i < items.len() && 0 <= j < items.len() && i != j ==> (#[trigger] items[i]).question@ != (#[trigger] items[j]).question@
}

/// The questions of all categories, in order.
pub open spec fn flatten(categories: Seq<FaqCategory>) -> Seq<FaqItem>
    decreases categories.len(),
{
    if categories.len() == 0 {
        Seq::empty()
    } else {
        flatten(categories.drop_last()) + categories.last().items@
    }
}

fn item(question: &'static str, answer: &'static str) -> (i: FaqItem)
    ensures
        i.question == question,
        i.answer == answer,
{
    FaqItem { question, answer }
}


/// The question and answer text of each item, in order.
pub open spec fn item_texts(items: Seq<FaqItem>) -> Seq<(Seq<char>, Seq<char>)> {
    items.map_values(|i: FaqItem| (i.question@, i.answer@))
}

/// The title and item texts of each category, in order.
pub open spec fn category_texts(categories: Seq<FaqCategory>) -> Seq<(Seq<char>, Seq<(Seq<char>, Seq<char>)>)> {
    categories.map_values(|c: FaqCategory| (c.title@, item_texts(c.items@)))
}

/// The SingleThread page's questions and answers, in page order.
pub open spec fn singlethread_faq_text() -> Seq<(Seq<char>, Seq<char>)> {
    seq![
        ("Where is my data stored?"@, "Your Reminders are stored on your phone and on iCloud in Apple Reminders. Your settings are stored on your device and in iCloud. I do not store any of your information myself. The only way that I will find out anything about you is if you email me."@),
        ("Why did you choose Apple Reminders?"@, "I chose Apple Reminders because it is free, has first class support on Apple devices, and is a pragmatic choice for many Apple users."@),
        ("Are you going to create an Android version?"@, "I'm not against the idea, but there are no current plans to do so. If this is something that you would like, send me an email!"@),
        ("Are you planning on supporting other task managers?"@, "I have been toying with the idea of supporting more task managers, please let me know if this is something that you desire and for which task manager."@),
        ("Where are the wallpapers from and how do you select them?"@, "The wallpapers are from Unsplash. My server at vardy.cc fetches random nature wallpapers from their service and caches them. The app then gets the wallpapers from my server using no identifying information about you. This allows me to obscure my API key and keep the number of requests to Unsplash to a reasonable level."@),
        ("Pulp or no pulp?"@, "I try not to be too picky, but I definitely prefer pulp."@),
        ("What network requests does this app make?"@, "I only have the app perform network requests to fetch new wallpapers."@),
        ("Does this app work off-line?"@, "It sure does! The changes to your reminders are stored on your device and will be synced to iCloud when you're next online. During this time, you will not be able to fetch new wallpapers, but the app will degrade gracefully in this case."@),
        ("Can I contact you with questions, bug reports, or feature requests?"@, "I would appreciate it! Please use my contact form and I will read your email personally."@),
        ("Is SingleThread free?"@, "SingleThread is free to download and use with no ads, no accounts, and no subscriptions. The full feature set is available to everyone."@),
        ("How do I get started?"@, "Download SingleThread from the App Store on your iPhone, iPad, or Mac. It reads your existing Apple Reminders — no import, no setup, no account. Open the app and you'll see your first reminder right away. From there, tap Complete, Skip, or Delete, and the next one appears."@),
    ]
}

/// The CheckStitch page's category titles with their questions and
/// answers, in page order.
pub open spec fn checkstitch_faq_text() -> Seq<(Seq<char>, Seq<(Seq<char>, Seq<char>)>)> {
    seq![
        ("Getting started"@, seq![
            ("How do I get CheckStitch?"@, "CheckStitch is being prepared for its App Store release on iPhone, iPad, and Mac, with a matching Apple Watch app included. There is no account and no setup: install it, open it, and tap + to name your first checklist."@),
            ("How do I run my first checklist?"@, "Tap +, give the checklist a name, and add your items — each one gets a title and an optional note. Pick the Reminders list the items should go to, then tap Create reminders. One reminder is created for each item, and CheckStitch leaves them alone after that."@),
        ]),
        ("Features"@, seq![
            ("What exactly does CheckStitch create?"@, "One Apple Reminder per item. The item's name becomes the reminder's title and the item's note becomes the reminder's note. Those reminders are then yours to use like any other — CheckStitch never reads, edits, completes, or deletes them afterwards."@),
            ("Can I choose where the reminders go?"@, "Yes. Every checklist has a destination list — your Reminders inbox or any list you already have. You can change it as often as you like while editing the checklist."@),
            ("What is Number Reminders?"@, "A toggle that prefixes each reminder's title with its position, like \"1. Buy milk\", so the order you wrote survives the trip into Reminders. Leave it off when the order doesn't matter."@),
            ("Can I reuse a checklist?"@, "That is the point. A checklist is a reusable template: go back to it next week, next month, or next Monday morning, and run it again to recreate the reminders without retyping a thing."@),
            ("Does CheckStitch work on the Apple Watch?"@, "Yes. Installing CheckStitch on your iPhone also installs a watch app, so you can read your checklists and create their reminders from your wrist without pulling out your phone."@),
            ("Do my checklists sync between my devices?"@, "Yes. Your checklists are stored on your device and synced through your own iCloud account, so the checklist you built on your iPhone is waiting for you on your iPad and Mac."@),
        ]),
        ("Privacy"@, seq![
            ("Do you collect my data?"@, "No. CheckStitch has no analytics, no tracking, and no advertising. Your reminders and checklists are never sent to the author or to any third party."@),
            ("Does CheckStitch read or change my existing reminders?"@, "No. It only creates reminders from your checklist items. It never reads, edits, completes, or deletes reminders after they have been created."@),
            ("Why does the app use the network at all?"@, "Only for the optional background. The wallpaper and artist credit are fetched through a proxy at vardy.cc, and that request never includes any reminder, checklist, or preference data. With the background switched off, CheckStitch makes no network requests at all."@),
        ]),
        ("Other"@, seq![
            ("Can I back up my checklists?"@, "Yes. Settings has Export and Import, so you can save your checklists to a file, or move them onto another device whenever you like."@),
            ("Are you going to create an Android version?"@, "There are no current plans for one. CheckStitch is built entirely on Apple Reminders and the Apple platforms. If this is something you would like, send me an email!"@),
            ("How do I get in touch?"@, "Use the contact form or send an email. I read everything, and it is the fastest way to get a feature or a fix into the app."@),
        ]),
    ]
}

/// The answer the SingleThread page gives to `question`, if it asks it.
pub open spec fn singlethread_answer(question: Seq<char>) -> Option<Seq<char>> {
    if question == "Where is my data stored?"@ {
        Some("Your Reminders are stored on your phone and on iCloud in Apple Reminders. Your settings are stored on your device and in iCloud. I do not store any of your information myself. The only way that I will find out anything about you is if you email me."@)
    } else if question == "Why did you choose Apple Reminders?"@ {
        Some("I chose Apple Reminders because it is free, has first class support on Apple devices, and is a pragmatic choice for many Apple users."@)
    } else if question == "Are you going to create an Android version?"@ {
        Some("I'm not against the idea, but there are no current plans to do so. If this is something that you would like, send me an email!"@)
    } else if question == "Are you planning on supporting other task managers?"@ {
        Some("I have been toying with the idea of supporting more task managers, please let me know if this is something that you desire and for which task manager."@)
    } else if question == "Where are the wallpapers from and how do you select them?"@ {
        Some("The wallpapers are from Unsplash. My server at vardy.cc fetches random nature wallpapers from their service and caches them. The app then gets the wallpapers from my server using no identifying information about you. This allows me to obscure my API key and keep the number of requests to Unsplash to a reasonable level."@)
    } else if question == "Pulp or no pulp?"@ {
        Some("I try not to be too picky, but I definitely prefer pulp."@)
    } else if question == "What network requests does this app make?"@ {
        Some("I only have the app perform network requests to fetch new wallpapers."@)
    } else if question == "Does this app work off-line?"@ {
        Some("It sure does! The changes to your reminders are stored on your device and will be synced to iCloud when you're next online. During this time, you will not be able to fetch new wallpapers, but the app will degrade gracefully in this case."@)
    } else if question == "Can I contact you with questions, bug reports, or feature requests?"@ {
        Some("I would appreciate it! Please use my contact form and I will read your email personally."@)
    } else if question == "Is SingleThread free?"@ {
        Some("SingleThread is free to download and use with no ads, no accounts, and no subscriptions. The full feature set is available to everyone."@)
    } else if question == "How do I get started?"@ {
        Some("Download SingleThread from the App Store on your iPhone, iPad, or Mac. It reads your existing Apple Reminders — no import, no setup, no account. Open the app and you'll see your first reminder right away. From there, tap Complete, Skip, or Delete, and the next one appears."@)
    } else {
        None
    }
}

/// The answer the CheckStitch page gives to `question`, if it asks it.
pub open spec fn checkstitch_answer(question: Seq<char>) -> Option<Seq<char>> {
    if question == "How do I get CheckStitch?"@ {
        Some("CheckStitch is being prepared for its App Store release on iPhone, iPad, and Mac, with a matching Apple Watch app included. There is no account and no setup: install it, open it, and tap + to name your first checklist."@)
    } else if question == "How do I run my first checklist?"@ {
        Some("Tap +, give the checklist a name, and add your items — each one gets a title and an optional note. Pick the Reminders list the items should go to, then tap Create reminders. One reminder is created for each item, and CheckStitch leaves them alone after that."@)
    } else if question == "What exactly does CheckStitch create?"@ {
        Some("One Apple Reminder per item. The item's name becomes the reminder's title and the item's note becomes the reminder's note. Those reminders are then yours to use like any other — CheckStitch never reads, edits, completes, or deletes them afterwards."@)
    } else if question == "Can I choose where the reminders go?"@ {
        Some("Yes. Every checklist has a destination list — your Reminders inbox or any list you already have. You can change it as often as you like while editing the checklist."@)
    } else if question == "What is Number Reminders?"@ {
        Some("A toggle that prefixes each reminder's title with its position, like \"1. Buy milk\", so the order you wrote survives the trip into Reminders. Leave it off when the order doesn't matter."@)
    } else if question == "Can I reuse a checklist?"@ {
        Some("That is the point. A checklist is a reusable template: go back to it next week, next month, or next Monday morning, and run it again to recreate the reminders without retyping a thing."@)
    } else if question == "Does CheckStitch work on the Apple Watch?"@ {
        Some("Yes. Installing CheckStitch on your iPhone also installs a watch app, so you can read your checklists and create their reminders from your wrist without pulling out your phone."@)
    } else if question == "Do my checklists sync between my devices?"@ {
        Some("Yes. Your checklists are stored on your device and synced through your own iCloud account, so the checklist you built on your iPhone is waiting for you on your iPad and Mac."@)
    } else if question == "Do you collect my data?"@ {
        Some("No. CheckStitch has no analytics, no tracking, and no advertising. Your reminders and checklists are never sent to the author or to any third party."@)
    } else if question == "Does CheckStitch read or change my existing reminders?"@ {
        Some("No. It only creates reminders from your checklist items. It never reads, edits, completes, or deletes reminders after they have been created."@)
    } else if question == "Why does the app use the network at all?"@ {
        Some("Only for the optional background. The wallpaper and artist credit are fetched through a proxy at vardy.cc, and that request never includes any reminder, checklist, or preference data. With the background switched off, CheckStitch makes no network requests at all."@)
    } else if question == "Can I back up my checklists?"@ {
        Some("Yes. Settings has Export and Import, so you can save your checklists to a file, or move them onto another device whenever you like."@)
    } else if question == "Are you going to create an Android version?"@ {
        Some("There are no current plans for one. CheckStitch is built entirely on Apple Reminders and the Apple platforms. If this is something you would like, send me an email!"@)
    } else if question == "How do I get in touch?"@ {
        Some("Use the contact form or send an email. I read everything, and it is the fastest way to get a feature or a fix into the app."@)
    } else {
        None
    }
}

/// The category under which the CheckStitch page asks `question`.
pub open spec fn checkstitch_section(question: Seq<char>) -> Option<Seq<char>> {
    if question == "How do I get CheckStitch?"@ {
        Some("Getting started"@)
    } else if question == "How do I run my first checklist?"@ {
        Some("Getting started"@)
    } else if question == "What exactly does CheckStitch create?"@ {
        Some("Features"@)
    } else if question == "Can I choose where the reminders go?"@ {
        Some("Features"@)
    } else if question == "What is Number Reminders?"@ {
        Some("Features"@)
    } else if question == "Can I reuse a checklist?"@ {
        Some("Features"@)
    } else if question == "Does CheckStitch work on the Apple Watch?"@ {
        Some("Features"@)
    } else if question == "Do my checklists sync between my devices?"@ {
        Some("Features"@)
    } else if question == "Do you collect my data?"@ {
        Some("Privacy"@)
    } else if question == "Does CheckStitch read or change my existing reminders?"@ {
        Some("Privacy"@)
    } else if question == "Why does the app use the network at all?"@ {
        Some("Privacy"@)
    } else if question == "Can I back up my checklists?"@ {
        Some("Other"@)
    } else if question == "Are you going to create an Android version?"@ {
        Some("Other"@)
    } else if question == "How do I get in touch?"@ {
        Some("Other"@)
    } else {
        None
    }
}

/// Every SingleThread item answers its own question: the answer listed
/// with each question is the one the page gives to that question.
pub proof fn lemma_singlethread_answers_match_questions()
    ensures
        forall|i: int| 0 <= i < singlethread_faq_text().len() ==> singlethread_answer(
            (#[trigger] singlethread_faq_text()[i]).0,
        ) == Some(singlethread_faq_text()[i].1),
{
    reveal_strlit("Where is my data stored?");
    reveal_strlit("Why did you choose Apple Reminders?");
    reveal_strlit("Are you going to create an Android version?");
    reveal_strlit("Are you planning on supporting other task managers?");
    reveal_strlit("Where are the wallpapers from and how do you select them?");
    reveal_strlit("Pulp or no pulp?");
    reveal_strlit("What network requests does this app make?");
    reveal_strlit("Does this app work off-line?");
    reveal_strlit("Can I contact you with questions, bug reports, or feature requests?");
    reveal_strlit("Is SingleThread free?");
    reveal_strlit("How do I get started?");
    assert("Why did you choose Apple Reminders?"@.len() != "Where is my data stored?"@.len());
    assert("Are you going to create an Android version?"@.len() != "Where is my data stored?"@.len());
    assert("Are you going to create an Android version?"@.len() != "Why did you choose Apple Reminders?"@.len());
    assert("Are you planning on supporting other task managers?"@.len() != "Where is my data stored?"@.len());
    assert("Are you planning on supporting other task managers?"@.len() != "Why did you choose Apple Reminders?"@.len());
    assert("Are you planning on supporting other task managers?"@.len() != "Are you going to create an Android version?"@.len());
    assert("Where are the wallpapers from and how do you select them?"@.len() != "Where is my data stored?"@.len());
    assert("Where are the wallpapers from and how do you select them?"@.len() != "Why did you choose Apple Reminders?"@.len());
    assert("Where are the wallpapers from and how do you select them?"@.len() != "Are you going to create an Android version?"@.len());
    assert("Where are the wallpapers from and how do you select them?"@.len() != "Are you planning on supporting other task managers?"@.len());
    assert("Pulp or no pulp?"@.len() != "Where is my data stored?"@.len());
    assert("Pulp or no pulp?"@.len() != "Why did you choose Apple Reminders?"@.len());
    assert("Pulp or no pulp?"@.len() != "Are you going to create an Android version?"@.len());
    assert("Pulp or no pulp?"@.len() != "Are you planning on supporting other task managers?"@.len());
    assert("Pulp or no pulp?"@.len() != "Where are the wallpapers from and how do you select them?"@.len());
    assert("What network requests does this app make?"@.len() != "Where is my data stored?"@.len());
    assert("What network requests does this app make?"@.len() != "Why did you choose Apple Reminders?"@.len());
    assert("What network requests does this app make?"@.len() != "Are you going to create an Android version?"@.len());
    assert("What network requests does this app make?"@.len() != "Are you planning on supporting other task managers?"@.len());
    assert("What network requests does this app make?"@.len() != "Where are the wallpapers from and how do you select them?"@.len());
    assert("What network requests does this app make?"@.len() != "Pulp or no pulp?"@.len());
    assert("Does this app work off-line?"@.len() != "Where is my data stored?"@.len());
    assert("Does this app work off-line?"@.len() != "Why did you choose Apple Reminders?"@.len());
    assert("Does this app work off-line?"@.len() != "Are you going to create an Android version?"@.len());
    assert("Does this app work off-line?"@.len() != "Are you planning on supporting other task managers?"@.len());
    assert("Does this app work off-line?"@.len() != "Where are the wallpapers from and how do you select them?"@.len());
    assert("Does this app work off-line?"@.len() != "Pulp or no pulp?"@.len());
    assert("Does this app work off-line?"@.len() != "What network requests does this app make?"@.len());
    assert("Can I contact you with questions, bug reports, or feature requests?"@.len() != "Where is my data stored?"@.len());
    assert("Can I contact you with questions, bug reports, or feature requests?"@.len() != "Why did you choose Apple Reminders?"@.len());
    assert("Can I contact you with questions, bug reports, or feature requests?"@.len() != "Are you going to create an Android version?"@.len());
    assert("Can I contact you with questions, bug reports, or feature requests?"@.len() != "Are you planning on supporting other task managers?"@.len());
    assert("Can I contact you with questions, bug reports, or feature requests?"@.len() != "Where are the wallpapers from and how do you select them?"@.len());
    assert("Can I contact you with questions, bug reports, or feature requests?"@.len() != "Pulp or no pulp?"@.len());
    assert("Can I contact you with questions, bug reports, or feature requests?"@.len() != "What network requests does this app make?"@.len());
    assert("Can I contact you with questions, bug reports, or feature requests?"@.len() != "Does this app work off-line?"@.len());
    assert("Is SingleThread free?"@.len() != "Where is my data stored?"@.len());
    assert("Is SingleThread free?"@.len() != "Why did you choose Apple Reminders?"@.len());
    assert("Is SingleThread free?"@.len() != "Are you going to create an Android version?"@.len());
    assert("Is SingleThread free?"@.len() != "Are you planning on supporting other task managers?"@.len());
    assert("Is SingleThread free?"@.len() != "Where are the wallpapers from and how do you select them?"@.len());
    assert("Is SingleThread free?"@.len() != "Pulp or no pulp?"@.len());
    assert("Is SingleThread free?"@.len() != "What network requests does this app make?"@.len());
    assert("Is SingleThread free?"@.len() != "Does this app work off-line?"@.len());
    assert("Is SingleThread free?"@.len() != "Can I contact you with questions, bug reports, or feature requests?"@.len());
    assert("How do I get started?"@.len() != "Where is my data stored?"@.len());
    assert("How do I get started?"@.len() != "Why did you choose Apple Reminders?"@.len());
    assert("How do I get started?"@.len() != "Are you going to create an Android version?"@.len());
    assert("How do I get started?"@.len() != "Are you planning on supporting other task managers?"@.len());
    assert("How do I get started?"@.len() != "Where are the wallpapers from and how do you select them?"@.len());
    assert("How do I get started?"@.len() != "Pulp or no pulp?"@.len());
    assert("How do I get started?"@.len() != "What network requests does this app make?"@.len());
    assert("How do I get started?"@.len() != "Does this app work off-line?"@.len());
    assert("How do I get started?"@.len() != "Can I contact you with questions, bug reports, or feature requests?"@.len());
    assert("How do I get started?"@[0] != "Is SingleThread free?"@[0]);
    let t = singlethread_faq_text();
    assert(singlethread_answer(t[0].0) == Some(t[0].1));
    assert(singlethread_answer(t[1].0) == Some(t[1].1));
    assert(singlethread_answer(t[2].0) == Some(t[2].1));
    assert(singlethread_answer(t[3].0) == Some(t[3].1));
    assert(singlethread_answer(t[4].0) == Some(t[4].1));
    assert(singlethread_answer(t[5].0) == Some(t[5].1));
    assert(singlethread_answer(t[6].0) == Some(t[6].1));
    assert(singlethread_answer(t[7].0) == Some(t[7].1));
    assert(singlethread_answer(t[8].0) == Some(t[8].1));
    assert(singlethread_answer(t[9].0) == Some(t[9].1));
    assert(singlethread_answer(t[10].0) == Some(t[10].1));
}

/// Every CheckStitch item answers its own question and stands in its own
/// category.
pub proof fn lemma_checkstitch_answers_match_questions()
    ensures
        forall|c: int, i: int| 0 <= c < checkstitch_faq_text().len() && 0 <= i < checkstitch_faq_text()[c].1.len()
            ==> checkstitch_answer((#[trigger] checkstitch_faq_text()[c].1[i]).0) == Some(checkstitch_faq_text()[c].1[i].1)
            && checkstitch_section(checkstitch_faq_text()[c].1[i].0) == Some(checkstitch_faq_text()[c].0),
{
    reveal_strlit("How do I get CheckStitch?");
    reveal_strlit("How do I run my first checklist?");
    reveal_strlit("What exactly does CheckStitch create?");
    reveal_strlit("Can I choose where the reminders go?");
    reveal_strlit("What is Number Reminders?");
    reveal_strlit("Can I reuse a checklist?");
    reveal_strlit("Does CheckStitch work on the Apple Watch?");
    reveal_strlit("Do my checklists sync between my devices?");
    reveal_strlit("Do you collect my data?");
    reveal_strlit("Does CheckStitch read or change my existing reminders?");
    reveal_strlit("Why does the app use the network at all?");
    reveal_strlit("Can I back up my checklists?");
    reveal_strlit("Are you going to create an Android version?");
    reveal_strlit("How do I get in touch?");
    assert("How do I run my first checklist?"@.len() != "How do I get CheckStitch?"@.len());
    assert("What exactly does CheckStitch create?"@.len() != "How do I get CheckStitch?"@.len());
    assert("What exactly does CheckStitch create?"@.len() != "How do I run my first checklist?"@.len());
    assert("Can I choose where the reminders go?"@.len() != "How do I get CheckStitch?"@.len());
    assert("Can I choose where the reminders go?"@.len() != "How do I run my first checklist?"@.len());
    assert("Can I choose where the reminders go?"@.len() != "What exactly does CheckStitch create?"@.len());
    assert("What is Number Reminders?"@[0] != "How do I get CheckStitch?"@[0]);
    assert("What is Number Reminders?"@.len() != "How do I run my first checklist?"@.len());
    assert("What is Number Reminders?"@.len() != "What exactly does CheckStitch create?"@.len());
    assert("What is Number Reminders?"@.len() != "Can I choose where the reminders go?"@.len());
    assert("Can I reuse a checklist?"@.len() != "How do I get CheckStitch?"@.len());
    assert("Can I reuse a checklist?"@.len() != "How do I run my first checklist?"@.len());
    assert("Can I reuse a checklist?"@.len() != "What exactly does CheckStitch create?"@.len());
    assert("Can I reuse a checklist?"@.len() != "Can I choose where the reminders go?"@.len());
    assert("Can I reuse a checklist?"@.len() != "What is Number Reminders?"@.len());
    assert("Does CheckStitch work on the Apple Watch?"@.len() != "How do I get CheckStitch?"@.len());
    assert("Does CheckStitch work on the Apple Watch?"@.len() != "How do I run my first checklist?"@.len());
    assert("Does CheckStitch work on the Apple Watch?"@.len() != "What exactly does CheckStitch create?"@.len());
    assert("Does CheckStitch work on the Apple Watch?"@.len() != "Can I choose where the reminders go?"@.len());
    assert("Does CheckStitch work on the Apple Watch?"@.len() != "What is Number Reminders?"@.len());
    assert("Does CheckStitch work on the Apple Watch?"@.len() != "Can I reuse a checklist?"@.len());
    assert("Do my checklists sync between my devices?"@.len() != "How do I get CheckStitch?"@.len());
    assert("Do my checklists sync between my devices?"@.len() != "How do I run my first checklist?"@.len());
    assert("Do my checklists sync between my devices?"@.len() != "What exactly does CheckStitch create?"@.len());
    assert("Do my checklists sync between my devices?"@.len() != "Can I choose where the reminders go?"@.len());
    assert("Do my checklists sync between my devices?"@.len() != "What is Number Reminders?"@.len());
    assert("Do my checklists sync between my devices?"@.len() != "Can I reuse a checklist?"@.len());
    assert("Do my checklists sync between my devices?"@[2] != "Does CheckStitch work on the Apple Watch?"@[2]);
    assert("Do you collect my data?"@.len() != "How do I get CheckStitch?"@.len());
    assert("Do you collect my data?"@.len() != "How do I run my first checklist?"@.len());
    assert("Do you collect my data?"@.len() != "What exactly does CheckStitch create?"@.len());
    assert("Do you collect my data?"@.len() != "Can I choose where the reminders go?"@.len());
    assert("Do you collect my data?"@.len() != "What is Number Reminders?"@.len());
    assert("Do you collect my data?"@.len() != "Can I reuse a checklist?"@.len());
    assert("Do you collect my data?"@.len() != "Does CheckStitch work on the Apple Watch?"@.len());
    assert("Do you collect my data?"@.len() != "Do my checklists sync between my devices?"@.len());
    assert("Does CheckStitch read or change my existing reminders?"@.len() != "How do I get CheckStitch?"@.len());
    assert("Does CheckStitch read or change my existing reminders?"@.len() != "How do I run my first checklist?"@.len());
    assert("Does CheckStitch read or change my existing reminders?"@.len() != "What exactly does CheckStitch create?"@.len());
    assert("Does CheckStitch read or change my existing reminders?"@.len() != "Can I choose where the reminders go?"@.len());
    assert("Does CheckStitch read or change my existing reminders?"@.len() != "What is Number Reminders?"@.len());
    assert("Does CheckStitch read or change my existing reminders?"@.len() != "Can I reuse a checklist?"@.len());
    assert("Does CheckStitch read or change my existing reminders?"@.len() != "Does CheckStitch work on the Apple Watch?"@.len());
    assert("Does CheckStitch read or change my existing reminders?"@.len() != "Do my checklists sync between my devices?"@.len());
    assert("Does CheckStitch read or change my existing reminders?"@.len() != "Do you collect my data?"@.len());
    assert("Why does the app use the network at all?"@.len() != "How do I get CheckStitch?"@.len());
    assert("Why does the app use the network at all?"@.len() != "How do I run my first checklist?"@.len());
    assert("Why does the app use the network at all?"@.len() != "What exactly does CheckStitch create?"@.len());
    assert("Why does the app use the network at all?"@.len() != "Can I choose where the reminders go?"@.len());
    assert("Why does the app use the network at all?"@.len() != "What is Number Reminders?"@.len());
    assert("Why does the app use the network at all?"@.len() != "Can I reuse a checklist?"@.len());
    assert("Why does the app use the network at all?"@.len() != "Does CheckStitch work on the Apple Watch?"@.len());
    assert("Why does the app use the network at all?"@.len() != "Do my checklists sync between my devices?"@.len());
    assert("Why does the app use the network at all?"@.len() != "Do you collect my data?"@.len());
    assert("Why does the app use the network at all?"@.len() != "Does CheckStitch read or change my existing reminders?"@.len());
    assert("Can I back up my checklists?"@.len() != "How do I get CheckStitch?"@.len());
    assert("Can I back up my checklists?"@.len() != "How do I run my first checklist?"@.len());
    assert("Can I back up my checklists?"@.len() != "What exactly does CheckStitch create?"@.len());
    assert("Can I back up my checklists?"@.len() != "Can I choose where the reminders go?"@.len());
    assert("Can I back up my checklists?"@.len() != "What is Number Reminders?"@.len());
    assert("Can I back up my checklists?"@.len() != "Can I reuse a checklist?"@.len());
    assert("Can I back up my checklists?"@.len() != "Does CheckStitch work on the Apple Watch?"@.len());
    assert("Can I back up my checklists?"@.len() != "Do my checklists sync between my devices?"@.len());
    assert("Can I back up my checklists?"@.len() != "Do you collect my data?"@.len());
    assert("Can I back up my checklists?"@.len() != "Does CheckStitch read or change my existing reminders?"@.len());
    assert("Can I back up my checklists?"@.len() != "Why does the app use the network at all?"@.len());
    assert("Are you going to create an Android version?"@.len() != "How do I get CheckStitch?"@.len());
    assert("Are you going to create an Android version?"@.len() != "How do I run my first checklist?"@.len());
    assert("Are you going to create an Android version?"@.len() != "What exactly does CheckStitch create?"@.len());
    assert("Are you going to create an Android version?"@.len() != "Can I choose where the reminders go?"@.len());
    assert("Are you going to create an Android version?"@.len() != "What is Number Reminders?"@.len());
    assert("Are you going to create an Android version?"@.len() != "Can I reuse a checklist?"@.len());
    assert("Are you going to create an Android version?"@.len() != "Does CheckStitch work on the Apple Watch?"@.len());
    assert("Are you going to create an Android version?"@.len() != "Do my checklists sync between my devices?"@.len());
    assert("Are you going to create an Android version?"@.len() != "Do you collect my data?"@.len());
    assert("Are you going to create an Android version?"@.len() != "Does CheckStitch read or change my existing reminders?"@.len());
    assert("Are you going to create an Android version?"@.len() != "Why does the app use the network at all?"@.len());
    assert("Are you going to create an Android version?"@.len() != "Can I back up my checklists?"@.len());
    assert("How do I get in touch?"@.len() != "How do I get CheckStitch?"@.len());
    assert("How do I get in touch?"@.len() != "How do I run my first checklist?"@.len());
    assert("How do I get in touch?"@.len() != "What exactly does CheckStitch create?"@.len());
    assert("How do I get in touch?"@.len() != "Can I choose where the reminders go?"@.len());
    assert("How do I get in touch?"@.len() != "What is Number Reminders?"@.len());
    assert("How do I get in touch?"@.len() != "Can I reuse a checklist?"@.len());
    assert("How do I get in touch?"@.len() != "Does CheckStitch work on the Apple Watch?"@.len());
    assert("How do I get in touch?"@.len() != "Do my checklists sync between my devices?"@.len());
    assert("How do I get in touch?"@.len() != "Do you collect my data?"@.len());
    assert("How do I get in touch?"@.len() != "Does CheckStitch read or change my existing reminders?"@.len());
    assert("How do I get in touch?"@.len() != "Why does the app use the network at all?"@.len());
    assert("How do I get in touch?"@.len() != "Can I back up my checklists?"@.len());
    assert("How do I get in touch?"@.len() != "Are you going to create an Android version?"@.len());
    let t = checkstitch_faq_text();
    assert(checkstitch_answer(t[0].1[0].0) == Some(t[0].1[0].1) && checkstitch_section(t[0].1[0].0) == Some(t[0].0));
    assert(checkstitch_answer(t[0].1[1].0) == Some(t[0].1[1].1) && checkstitch_section(t[0].1[1].0) == Some(t[0].0));
    assert(checkstitch_answer(t[1].1[0].0) == Some(t[1].1[0].1) && checkstitch_section(t[1].1[0].0) == Some(t[1].0));
    assert(checkstitch_answer(t[1].1[1].0) == Some(t[1].1[1].1) && checkstitch_section(t[1].1[1].0) == Some(t[1].0));
    assert(checkstitch_answer(t[1].1[2].0) == Some(t[1].1[2].1) && checkstitch_section(t[1].1[2].0) == Some(t[1].0));
    assert(checkstitch_answer(t[1].1[3].0) == Some(t[1].1[3].1) && checkstitch_section(t[1].1[3].0) == Some(t[1].0));
    assert(checkstitch_answer(t[1].1[4].0) == Some(t[1].1[4].1) && checkstitch_section(t[1].1[4].0) == Some(t[1].0));
    assert(checkstitch_answer(t[1].1[5].0) == Some(t[1].1[5].1) && checkstitch_section(t[1].1[5].0) == Some(t[1].0));
    assert(checkstitch_answer(t[2].1[0].0) == Some(t[2].1[0].1) && checkstitch_section(t[2].1[0].0) == Some(t[2].0));
    assert(checkstitch_answer(t[2].1[1].0) == Some(t[2].1[1].1) && checkstitch_section(t[2].1[1].0) == Some(t[2].0));
    assert(checkstitch_answer(t[2].1[2].0) == Some(t[2].1[2].1) && checkstitch_section(t[2].1[2].0) == Some(t[2].0));
    assert(checkstitch_answer(t[3].1[0].0) == Some(t[3].1[0].1) && checkstitch_section(t[3].1[0].0) == Some(t[3].0));
    assert(checkstitch_answer(t[3].1[1].0) == Some(t[3].1[1].1) && checkstitch_section(t[3].1[1].0) == Some(t[3].0));
    assert(checkstitch_answer(t[3].1[2].0) == Some(t[3].1[2].1) && checkstitch_section(t[3].1[2].0) == Some(t[3].0));
}

/// The SingleThread questions, in page order.
pub fn singlethread_faq_items() -> (items: Vec<FaqItem>)
    ensures
        item_texts(items@) == singlethread_faq_text(),
        items@.len() == 11,
        all_non_empty(items@),
        distinct_questions(items@),
{
    proof {
        reveal_strlit("Where is my data stored?");
        reveal_strlit("Your Reminders are stored on your phone and on iCloud in Apple Reminders. Your settings are stored on your device and in iCloud. I do not store any of your information myself. The only way that I will find out anything about you is if you email me.");
        reveal_strlit("Why did you choose Apple Reminders?");
        reveal_strlit("I chose Apple Reminders because it is free, has first class support on Apple devices, and is a pragmatic choice for many Apple users.");
        reveal_strlit("Are you going to create an Android version?");
        reveal_strlit("I'm not against the idea, but there are no current plans to do so. If this is something that you would like, send me an email!");
        reveal_strlit("Are you planning on supporting other task managers?");
        reveal_strlit("I have been toying with the idea of supporting more task managers, please let me know if this is something that you desire and for which task manager.");
        reveal_strlit("Where are the wallpapers from and how do you select them?");
        reveal_strlit("The wallpapers are from Unsplash. My server at vardy.cc fetches random nature wallpapers from their service and caches them. The app then gets the wallpapers from my server using no identifying information about you. This allows me to obscure my API key and keep the number of requests to Unsplash to a reasonable level.");
        reveal_strlit("Pulp or no pulp?");
        reveal_strlit("I try not to be too picky, but I definitely prefer pulp.");
        reveal_strlit("What network requests does this app make?");
        reveal_strlit("I only have the app perform network requests to fetch new wallpapers.");
        reveal_strlit("Does this app work off-line?");
        reveal_strlit("It sure does! The changes to your reminders are stored on your device and will be synced to iCloud when you're next online. During this time, you will not be able to fetch new wallpapers, but the app will degrade gracefully in this case.");
        reveal_strlit("Can I contact you with questions, bug reports, or feature requests?");
        reveal_strlit("I would appreciate it! Please use my contact form and I will read your email personally.");
        reveal_strlit("Is SingleThread free?");
        reveal_strlit("SingleThread is free to download and use with no ads, no accounts, and no subscriptions. The full feature set is available to everyone.");
        reveal_strlit("How do I get started?");
        reveal_strlit("Download SingleThread from the App Store on your iPhone, iPad, or Mac. It reads your existing Apple Reminders — no import, no setup, no account. Open the app and you'll see your first reminder right away. From there, tap Complete, Skip, or Delete, and the next one appears.");
    }
    let mut items: Vec<FaqItem> = Vec::new();
    items.push(item(
        "Where is my data stored?",
        "Your Reminders are stored on your phone and on iCloud in Apple Reminders. Your settings are stored on your device and in iCloud. I do not store any of your information myself. The only way that I will find out anything about you is if you email me.",
    ));
    items.push(item(
        "Why did you choose Apple Reminders?",
        "I chose Apple Reminders because it is free, has first class support on Apple devices, and is a pragmatic choice for many Apple users.",
    ));
    items.push(item(
        "Are you going to create an Android version?",
        "I'm not against the idea, but there are no current plans to do so. If this is something that you would like, send me an email!",
    ));
    items.push(item(
        "Are you planning on supporting other task managers?",
        "I have been toying with the idea of supporting more task managers, please let me know if this is something that you desire and for which task manager.",
    ));
    items.push(item(
        "Where are the wallpapers from and how do you select them?",
        "The wallpapers are from Unsplash. My server at vardy.cc fetches random nature wallpapers from their service and caches them. The app then gets the wallpapers from my server using no identifying information about you. This allows me to obscure my API key and keep the number of requests to Unsplash to a reasonable level.",
    ));
    items.push(item(
        "Pulp or no pulp?",
        "I try not to be too picky, but I definitely prefer pulp.",
    ));
    items.push(item(
        "What network requests does this app make?",
        "I only have the app perform network requests to fetch new wallpapers.",
    ));
    items.push(item(
        "Does this app work off-line?",
        "It sure does! The changes to your reminders are stored on your device and will be synced to iCloud when you're next online. During this time, you will not be able to fetch new wallpapers, but the app will degrade gracefully in this case.",
    ));
    items.push(item(
        "Can I contact you with questions, bug reports, or feature requests?",
        "I would appreciate it! Please use my contact form and I will read your email personally.",
    ));
    items.push(item(
        "Is SingleThread free?",
        "SingleThread is free to download and use with no ads, no accounts, and no subscriptions. The full feature set is available to everyone.",
    ));
    items.push(item(
        "How do I get started?",
        "Download SingleThread from the App Store on your iPhone, iPad, or Mac. It reads your existing Apple Reminders — no import, no setup, no account. Open the app and you'll see your first reminder right away. From there, tap Complete, Skip, or Delete, and the next one appears.",
    ));
    assert forall|i: int, j: int| 0 <= i < items@.len() && 0 <= j < items@.len() && i != j implies (#[trigger] items@[i]).question@ != (#[trigger] items@[j]).question@ by {
        if items@[i].question@.len() == items@[j].question@.len() {
            assert(items@[i].question@[0] != items@[j].question@[0]);
        }
    }
    assert(item_texts(items@) =~= singlethread_faq_text());
    items
}

/// Each category has a title and at least one question.
pub open spec fn categories_well_formed(categories: Seq<FaqCategory>) -> bool {
    forall|i: int| 0 <= i < categories.len() ==> (#[trigger] categories[i]).title@.len() > 0 && categories[i].items@.len() > 0
}

/// The CheckStitch questions, grouped by category, in page order.
pub fn checkstitch_faq_categories() -> (categories: Vec<FaqCategory>)
    ensures
        category_texts(categories@) == checkstitch_faq_text(),
        categories@.len() == 4,
        categories_well_formed(categories@),
        flatten(categories@).len() == 14,
        all_non_empty(flatten(categories@)),
        distinct_questions(flatten(categories@)),
{
    proof {
        reveal_strlit("Getting started");
        reveal_strlit("How do I get CheckStitch?");
        reveal_strlit("CheckStitch is being prepared for its App Store release on iPhone, iPad, and Mac, with a matching Apple Watch app included. There is no account and no setup: install it, open it, and tap + to name your first checklist.");
        reveal_strlit("How do I run my first checklist?");
        reveal_strlit("Tap +, give the checklist a name, and add your items — each one gets a title and an optional note. Pick the Reminders list the items should go to, then tap Create reminders. One reminder is created for each item, and CheckStitch leaves them alone after that.");
        reveal_strlit("Features");
        reveal_strlit("What exactly does CheckStitch create?");
        reveal_strlit("One Apple Reminder per item. The item's name becomes the reminder's title and the item's note becomes the reminder's note. Those reminders are then yours to use like any other — CheckStitch never reads, edits, completes, or deletes them afterwards.");
        reveal_strlit("Can I choose where the reminders go?");
        reveal_strlit("Yes. Every checklist has a destination list — your Reminders inbox or any list you already have. You can change it as often as you like while editing the checklist.");
        reveal_strlit("What is Number Reminders?");
        reveal_strlit("A toggle that prefixes each reminder's title with its position, like \"1. Buy milk\", so the order you wrote survives the trip into Reminders. Leave it off when the order doesn't matter.");
        reveal_strlit("Can I reuse a checklist?");
        reveal_strlit("That is the point. A checklist is a reusable template: go back to it next week, next month, or next Monday morning, and run it again to recreate the reminders without retyping a thing.");
        reveal_strlit("Does CheckStitch work on the Apple Watch?");
        reveal_strlit("Yes. Installing CheckStitch on your iPhone also installs a watch app, so you can read your checklists and create their reminders from your wrist without pulling out your phone.");
        reveal_strlit("Do my checklists sync between my devices?");
        reveal_strlit("Yes. Your checklists are stored on your device and synced through your own iCloud account, so the checklist you built on your iPhone is waiting for you on your iPad and Mac.");
        reveal_strlit("Privacy");
        reveal_strlit("Do you collect my data?");
        reveal_strlit("No. CheckStitch has no analytics, no tracking, and no advertising. Your reminders and checklists are never sent to the author or to any third party.");
        reveal_strlit("Does CheckStitch read or change my existing reminders?");
        reveal_strlit("No. It only creates reminders from your checklist items. It never reads, edits, completes, or deletes reminders after they have been created.");
        reveal_strlit("Why does the app use the network at all?");
        reveal_strlit("Only for the optional background. The wallpaper and artist credit are fetched through a proxy at vardy.cc, and that request never includes any reminder, checklist, or preference data. With the background switched off, CheckStitch makes no network requests at all.");
        reveal_strlit("Other");
        reveal_strlit("Can I back up my checklists?");
        reveal_strlit("Yes. Settings has Export and Import, so you can save your checklists to a file, or move them onto another device whenever you like.");
        reveal_strlit("Are you going to create an Android version?");
        reveal_strlit("There are no current plans for one. CheckStitch is built entirely on Apple Reminders and the Apple platforms. If this is something you would like, send me an email!");
        reveal_strlit("How do I get in touch?");
        reveal_strlit("Use the contact form or send an email. I read everything, and it is the fastest way to get a feature or a fix into the app.");
    }
    let mut group0: Vec<FaqItem> = Vec::new();
    group0.push(item(
        "How do I get CheckStitch?",
        "CheckStitch is being prepared for its App Store release on iPhone, iPad, and Mac, with a matching Apple Watch app included. There is no account and no setup: install it, open it, and tap + to name your first checklist.",
    ));
    group0.push(item(
        "How do I run my first checklist?",
        "Tap +, give the checklist a name, and add your items — each one gets a title and an optional note. Pick the Reminders list the items should go to, then tap Create reminders. One reminder is created for each item, and CheckStitch leaves them alone after that.",
    ));
    let mut group1: Vec<FaqItem> = Vec::new();
    group1.push(item(
        "What exactly does CheckStitch create?",
        "One Apple Reminder per item. The item's name becomes the reminder's title and the item's note becomes the reminder's note. Those reminders are then yours to use like any other — CheckStitch never reads, edits, completes, or deletes them afterwards.",
    ));
    group1.push(item(
        "Can I choose where the reminders go?",
        "Yes. Every checklist has a destination list — your Reminders inbox or any list you already have. You can change it as often as you like while editing the checklist.",
    ));
    group1.push(item(
        "What is Number Reminders?",
        "A toggle that prefixes each reminder's title with its position, like \"1. Buy milk\", so the order you wrote survives the trip into Reminders. Leave it off when the order doesn't matter.",
    ));
    group1.push(item(
        "Can I reuse a checklist?",
        "That is the point. A checklist is a reusable template: go back to it next week, next month, or next Monday morning, and run it again to recreate the reminders without retyping a thing.",
    ));
    group1.push(item(
        "Does CheckStitch work on the Apple Watch?",
        "Yes. Installing CheckStitch on your iPhone also installs a watch app, so you can read your checklists and create their reminders from your wrist without pulling out your phone.",
    ));
    group1.push(item(
        "Do my checklists sync between my devices?",
        "Yes. Your checklists are stored on your device and synced through your own iCloud account, so the checklist you built on your iPhone is waiting for you on your iPad and Mac.",
    ));
    let mut group2: Vec<FaqItem> = Vec::new();
    group2.push(item(
        "Do you collect my data?",
        "No. CheckStitch has no analytics, no tracking, and no advertising. Your reminders and checklists are never sent to the author or to any third party.",
    ));
    group2.push(item(
        "Does CheckStitch read or change my existing reminders?",
        "No. It only creates reminders from your checklist items. It never reads, edits, completes, or deletes reminders after they have been created.",
    ));
    group2.push(item(
        "Why does the app use the network at all?",
        "Only for the optional background. The wallpaper and artist credit are fetched through a proxy at vardy.cc, and that request never includes any reminder, checklist, or preference data. With the background switched off, CheckStitch makes no network requests at all.",
    ));
    let mut group3: Vec<FaqItem> = Vec::new();
    group3.push(item(
        "Can I back up my checklists?",
        "Yes. Settings has Export and Import, so you can save your checklists to a file, or move them onto another device whenever you like.",
    ));
    group3.push(item(
        "Are you going to create an Android version?",
        "There are no current plans for one. CheckStitch is built entirely on Apple Reminders and the Apple platforms. If this is something you would like, send me an email!",
    ));
    group3.push(item(
        "How do I get in touch?",
        "Use the contact form or send an email. I read everything, and it is the fastest way to get a feature or a fix into the app.",
    ));
    let ghost flat = group0@ + group1@ + group2@ + group3@;
    let mut categories: Vec<FaqCategory> = Vec::new();
    categories.push(FaqCategory { title: "Getting started", items: group0 });
    categories.push(FaqCategory { title: "Features", items: group1 });
    categories.push(FaqCategory { title: "Privacy", items: group2 });
    categories.push(FaqCategory { title: "Other", items: group3 });
    proof {
        reveal_with_fuel(flatten, 5);
        assert(flatten(categories@) =~= flat);
        assert(item_texts(categories@[0].items@) =~= checkstitch_faq_text()[0].1);
        assert(item_texts(categories@[1].items@) =~= checkstitch_faq_text()[1].1);
        assert(item_texts(categories@[2].items@) =~= checkstitch_faq_text()[2].1);
        assert(item_texts(categories@[3].items@) =~= checkstitch_faq_text()[3].1);
        assert(category_texts(categories@) =~= checkstitch_faq_text());
    }
    assert forall|i: int, j: int| 0 <= i < flat.len() && 0 <= j < flat.len() && i != j implies (#[trigger] flat[i]).question@ != (#[trigger] flat[j]).question@ by {
        if flat[i].question@.len() == flat[j].question@.len() && flat[i].question@[0] == flat[j].question@[0] {
            assert(flat[i].question@[2] != flat[j].question@[2]);
        }
    }
    categories
}

} // verus!
