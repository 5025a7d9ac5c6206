use gsquire::birthday::{collect_birthdays, find_next_birthday, get_next_birthday_date, Date};
use gsquire::message::{Channel, ChannelKind};
use gsquire::roster::UserBirthday;
use gsquire::seasonal::{
    announcements_channel, april_fools, find_channel, is_wednesday, it_is_wednesday_my_dudes,
    wednesday_message, Beat, Weekday,
};

fn date(year: i32, month: u32, day: u32) -> Date {
    Date { year, month, day }
}

fn channel(id: u64, name: &str) -> Channel {
    Channel { id, name: String::from(name), kind: ChannelKind::Text }
}

#[test]
fn birthday_later_this_year_is_kept_this_year() {
    assert_eq!(get_next_birthday_date(date(2016, 11, 24), 12, 25), Some(date(2016, 12, 25)));
}

#[test]
fn birthday_today_is_kept_today() {
    assert_eq!(get_next_birthday_date(date(2016, 11, 24), 11, 24), Some(date(2016, 11, 24)));
}

#[test]
fn birthday_already_past_is_kept_next_year() {
    assert_eq!(get_next_birthday_date(date(2016, 11, 24), 6, 20), Some(date(2017, 6, 20)));
    assert_eq!(get_next_birthday_date(date(2016, 11, 24), 11, 23), Some(date(2017, 11, 23)));
}

#[test]
fn birthday_that_is_not_known_has_no_date() {
    assert_eq!(get_next_birthday_date(date(2016, 11, 24), 0, 0), None);
    assert_eq!(get_next_birthday_date(date(2016, 11, 24), 0, 5), None);
    assert_eq!(get_next_birthday_date(date(2016, 11, 24), 5, 0), None);
}

#[test]
fn birthday_on_a_day_that_does_not_exist_has_no_date() {
    assert_eq!(get_next_birthday_date(date(2016, 1, 1), 4, 31), None);
    assert_eq!(get_next_birthday_date(date(2016, 1, 1), 2, 30), None);
    assert_eq!(get_next_birthday_date(date(2016, 1, 1), 13, 1), None);
    assert_eq!(get_next_birthday_date(date(2016, 1, 1), 1, 32), None);
    assert_eq!(get_next_birthday_date(date(2016, 1, 1), 255, 255), None);
}

#[test]
fn leap_day_is_kept_in_a_leap_year() {
    assert_eq!(get_next_birthday_date(date(2016, 1, 15), 2, 29), Some(date(2016, 2, 29)));
    assert_eq!(get_next_birthday_date(date(2016, 2, 29), 2, 29), Some(date(2016, 2, 29)));
}

#[test]
fn leap_day_is_kept_on_the_twenty_eighth_in_other_years() {
    assert_eq!(get_next_birthday_date(date(2017, 1, 15), 2, 29), Some(date(2017, 2, 28)));
    assert_eq!(get_next_birthday_date(date(2016, 3, 1), 2, 29), Some(date(2017, 2, 28)));
    assert_eq!(get_next_birthday_date(date(2018, 6, 1), 2, 29), Some(date(2019, 2, 28)));
}

#[test]
fn leap_day_past_in_the_year_before_a_leap_year_is_kept_on_the_leap_day() {
    assert_eq!(get_next_birthday_date(date(2019, 3, 1), 2, 29), Some(date(2020, 2, 29)));
}

#[test]
fn leap_day_has_no_date_in_a_multiple_of_four_that_is_no_leap_year() {
    assert_eq!(get_next_birthday_date(date(2100, 1, 15), 2, 29), None);
    assert_eq!(get_next_birthday_date(date(2099, 3, 1), 2, 29), None);
    assert_eq!(get_next_birthday_date(date(2000, 1, 15), 2, 29), Some(date(2000, 2, 29)));
}

#[test]
fn twenty_ninth_of_february_is_no_date_for_other_birthdays_in_plain_years() {
    assert_eq!(get_next_birthday_date(date(2017, 1, 1), 2, 28), Some(date(2017, 2, 28)));
    assert_eq!(get_next_birthday_date(date(2017, 3, 1), 2, 28), Some(date(2018, 2, 28)));
}

#[test]
fn birthday_beyond_the_last_year_has_no_date() {
    assert_eq!(get_next_birthday_date(date(262_142, 6, 1), 5, 1), None);
    assert_eq!(get_next_birthday_date(date(262_142, 6, 1), 7, 1), Some(date(262_142, 7, 1)));
    assert_eq!(get_next_birthday_date(date(262_143, 6, 1), 7, 1), None);
    assert_eq!(get_next_birthday_date(date(-262_143, 6, 1), 7, 1), Some(date(-262_143, 7, 1)));
    assert_eq!(get_next_birthday_date(date(-262_144, 6, 1), 7, 1), None);
    assert_eq!(get_next_birthday_date(date(i32::MAX, 6, 1), 5, 1), None);
}

#[test]
fn birthday_in_a_year_before_the_common_era_follows_the_same_calendar() {
    assert_eq!(get_next_birthday_date(date(-4, 1, 1), 2, 29), Some(date(-4, 2, 29)));
    assert_eq!(get_next_birthday_date(date(-3, 1, 1), 2, 29), Some(date(-3, 2, 28)));
    assert_eq!(get_next_birthday_date(date(-1, 12, 31), 1, 1), Some(date(0, 1, 1)));
}

#[test]
fn before_orders_dates_by_year_then_month_then_day() {
    assert!(date(2016, 12, 31).before(&date(2017, 1, 1)));
    assert!(date(2016, 1, 31).before(&date(2016, 2, 1)));
    assert!(date(2016, 2, 1).before(&date(2016, 2, 2)));
    assert!(!date(2016, 2, 2).before(&date(2016, 2, 2)));
    assert!(!date(2017, 1, 1).before(&date(2016, 12, 31)));
}

#[test]
fn last_entry_of_a_user_counts() {
    let roster = vec![
        UserBirthday { user: 1, month: 6, day: 20 },
        UserBirthday { user: 2, month: 12, day: 1 },
        UserBirthday { user: 1, month: 12, day: 24 },
    ];
    let today = date(2016, 11, 24);
    assert_eq!(find_next_birthday(&roster, 1, today), Some(date(2016, 12, 24)));
    assert_eq!(find_next_birthday(&roster, 2, today), Some(date(2016, 12, 1)));
    assert_eq!(find_next_birthday(&roster, 3, today), None);
}

#[test]
fn collect_birthdays_answers_for_each_member_in_order() {
    let roster = vec![
        UserBirthday { user: 10, month: 6, day: 20 },
        UserBirthday { user: 20, month: 0, day: 0 },
        UserBirthday { user: 30, month: 2, day: 29 },
    ];
    let members = vec![30, 99, 20, 10];
    assert_eq!(
        collect_birthdays(&roster, &members, date(2016, 11, 24)),
        vec![Some(date(2017, 2, 28)), None, None, Some(date(2017, 6, 20))]
    );
    assert!(collect_birthdays(&roster, &Vec::new(), date(2016, 11, 24)).is_empty());
    assert_eq!(collect_birthdays(&Vec::new(), &vec![1], date(2016, 11, 24)), vec![None]);
}

#[test]
fn wednesday_message_goes_to_the_announcements_channel() {
    let channels = vec![channel(1, "general-"), channel(2, "announcements-"), channel(3, "raid")];
    assert_eq!(it_is_wednesday_my_dudes(Weekday::Wednesday, &channels), Some(2));
    assert_eq!(wednesday_message(), "https://youtu.be/du-TY1GUFGk");
    assert_eq!(announcements_channel(), "announcements-");
}

#[test]
fn wednesday_message_goes_out_on_wednesdays_only() {
    let channels = vec![channel(2, "announcements-")];
    for day in [
        Weekday::Monday,
        Weekday::Tuesday,
        Weekday::Thursday,
        Weekday::Friday,
        Weekday::Saturday,
        Weekday::Sunday,
    ] {
        assert_eq!(it_is_wednesday_my_dudes(day, &channels), None);
    }
}

#[test]
fn wednesday_is_the_one_day_of_the_message() {
    assert!(is_wednesday(Weekday::Wednesday));
    assert!(!is_wednesday(Weekday::Tuesday));
    assert!(!is_wednesday(Weekday::Thursday));
    assert!(!is_wednesday(Weekday::Sunday));
}

#[test]
fn wednesday_message_needs_an_announcements_channel() {
    let channels = vec![channel(1, "general-"), channel(2, "announcements"), channel(3, "Announcements-")];
    assert_eq!(it_is_wednesday_my_dudes(Weekday::Wednesday, &channels), None);
    assert_eq!(it_is_wednesday_my_dudes(Weekday::Wednesday, &Vec::new()), None);
}

#[test]
fn wednesday_message_goes_to_the_first_of_two_announcements_channels() {
    let channels = vec![channel(5, "raid"), channel(7, "announcements-"), channel(9, "announcements-")];
    assert_eq!(it_is_wednesday_my_dudes(Weekday::Wednesday, &channels), Some(7));
    assert_eq!(find_channel(&channels, "announcements-"), Some(1));
    assert_eq!(find_channel(&channels, "raid"), Some(0));
    assert_eq!(find_channel(&channels, "rai"), None);
}

#[test]
fn april_fools_counts_down_on_the_first_of_april() {
    assert_eq!(
        april_fools(4, 1),
        vec![
            Beat { text: "Channel deletion in 5...", pause_secs: 1 },
            Beat { text: "4...", pause_secs: 1 },
            Beat { text: "3...", pause_secs: 1 },
            Beat { text: "2...", pause_secs: 1 },
            Beat { text: "1...", pause_secs: 3 },
            Beat { text: "April fools!!", pause_secs: 0 },
        ]
    );
}

#[test]
fn april_fools_is_silent_on_every_other_day() {
    assert!(april_fools(4, 2).is_empty());
    assert!(april_fools(3, 31).is_empty());
    assert!(april_fools(1, 4).is_empty());
    assert!(april_fools(0, 0).is_empty());
}
