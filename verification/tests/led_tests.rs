use link_board::Led;

#[test]
fn test_color_values() {
    assert_eq!(Led::off().as_tuple(), (0, 0, 0));
    assert_eq!(Led::red().as_tuple(), (30, 0, 0));
    assert_eq!(Led::green().as_tuple(), (0, 30, 0));
    assert_eq!(Led::dull_green().as_tuple(), (0, 20, 0));
    assert_eq!(Led::blue().as_tuple(), (0, 0, 30));
    assert_eq!(Led::dull_blue().as_tuple(), (0, 0, 20));
    assert_eq!(Led::cyan().as_tuple(), (0, 30, 30));
    assert_eq!(Led::dull_cyan().as_tuple(), (5, 10, 20));
    assert_eq!(Led::purple().as_tuple(), (30, 0, 30));
    assert_eq!(Led::dull_purple().as_tuple(), (20, 0, 20));
    assert_eq!(Led::orange().as_tuple(), (20, 30, 0));
    assert_eq!(Led::dull_orange().as_tuple(), (10, 20, 0));
    assert_eq!(Led::dull_yellow().as_tuple(), (20, 20, 0));
    assert_eq!(Led::dull_white().as_tuple(), (2, 2, 2));
}

#[test]
fn test_role_colors() {
    assert_eq!(Led::empty_station(), Led::dull_white());
    assert_eq!(Led::ln_1_at_station(), Led::green());
    assert_eq!(Led::ln_1_between_stations(), Led::dull_yellow());
    assert_eq!(Led::ln_2_at_station(), Led::blue());
    assert_eq!(Led::ln_2_between_stations(), Led::dull_purple());
    assert_eq!(Led::at_station_mixed(), Led::purple());
    assert_eq!(Led::between_stations_mixed(), Led::dull_orange());
}

#[test]
fn test_from_and_channels() {
    let led = Led::from(7, 8, 9);
    assert_eq!(led.r(), 7);
    assert_eq!(led.g(), 8);
    assert_eq!(led.b(), 9);
    assert_eq!(led.as_tuple(), (7, 8, 9));
    assert!(led.eq(&Led::from(7, 8, 9)));
    assert!(!led.eq(&Led::from(7, 8, 10)));
}

#[test]
fn test_add_tuple_saturates() {
    let mut led = Led::from(250, 10, 0);
    led.add_tuple((10, 5, 100));
    assert_eq!(led.as_tuple(), (255, 15, 100));
    let mut max = Led::from(255, 255, 255);
    max.add_tuple((1, 1, 1));
    assert_eq!(max.as_tuple(), (255, 255, 255));
}
