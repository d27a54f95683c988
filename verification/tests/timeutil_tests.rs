use thulani_audio::timeutil::{captures_for, parse_times, TimeKind};

#[test]
fn timeutil_test_start() {
    let captures = captures_for("start 1h2m3s", TimeKind::Start).unwrap();

    assert_eq!(captures.hours.unwrap().as_str(), "1");
    assert_eq!(captures.minutes.unwrap().as_str(), "2");
    assert_eq!(captures.seconds.unwrap().as_str(), "3");

    assert!(captures_for("", TimeKind::Start).is_none());

    let captures = captures_for("start 1", TimeKind::Start).unwrap();
    assert_eq!(captures.seconds.unwrap().as_str(), "1");
}

#[test]
fn timeutil_test_dur() {
    let captures = captures_for("dur 1h2m3s", TimeKind::Dur).unwrap();

    assert_eq!(captures.hours.unwrap().as_str(), "1");
    assert_eq!(captures.minutes.unwrap().as_str(), "2");
    assert_eq!(captures.seconds.unwrap().as_str(), "3");

    assert!(captures_for("", TimeKind::Dur).is_none());

    let captures = captures_for("dur 1", TimeKind::Dur).unwrap();
    assert_eq!(captures.seconds.unwrap().as_str(), "1");
}

#[test]
fn timeutil_test_end() {
    let captures = captures_for("end 1h2m3s", TimeKind::End).unwrap();

    assert_eq!(captures.hours.unwrap().as_str(), "1");
    assert_eq!(captures.minutes.unwrap().as_str(), "2");
    assert_eq!(captures.seconds.unwrap().as_str(), "3");

    assert!(captures_for("", TimeKind::End).is_none());

    let captures = captures_for("end 1", TimeKind::End).unwrap();
    assert_eq!(captures.seconds.unwrap().as_str(), "1");
}

fn format_time(d: u64) -> Vec<String> {
    let seconds = d % 60;
    let minutes = (d / 60) % 60;
    let hours = d / 3600;

    fn format_maybe_zero(v: u64, unit: &str, always: bool) -> String {
        if always || v != 0 {
            format!("{}{}", v, unit)
        } else {
            "".to_owned()
        }
    }

    let elems = vec![true, false];
    let mut out = Vec::new();
    for &secs in &elems {
        for &mins in &elems {
            for &hr in &elems {
                if !secs && !mins && !hr {
                    continue;
                }
                let hr_string = format_maybe_zero(hours, "h", hr);
                let mn_string = format_maybe_zero(minutes, "m", mins);
                let sec_string = format_maybe_zero(seconds, "s", secs);
                out.push(format!("{}{}{}", hr_string, mn_string, sec_string));
            }
        }
    }
    out
}

fn phrases(times: &[Option<u64>], names: &[&str]) -> Vec<Option<(u64, String)>> {
    let mut out = Vec::new();
    for t in times {
        match t {
            None => out.push(None),
            Some(d) => {
                for time in format_time(*d) {
                    for name in names {
                        out.push(Some((*d, format!("{} {}", name, time))));
                    }
                }
            }
        }
    }
    out
}

#[test]
fn timeutil_test_parse_matrix() {
    let start_times = vec![None, Some(0), Some(32)];
    let durs = vec![None, Some(0), Some(123141)];
    let end_times = vec![None, Some(0), Some(19851598)];

    let start_names = vec!["start", "begin", "beginning"];
    let dur_names = vec!["dur", "duration"];
    let end_names = vec!["end", "term", "terminate", "termination"];

    let start_iters = phrases(&start_times, &start_names);
    let dur_iters = phrases(&durs, &dur_names);
    let end_iters = phrases(&end_times, &end_names);

    for start in &start_iters {
        for dur in &dur_iters {
            for end in &end_iters {
                let s = [start, dur, end]
                    .iter()
                    .filter_map(|o| o.as_ref().map(|(_, formatted)| formatted.to_owned()))
                    .collect::<Vec<_>>()
                    .join(" ");

                println!("testing {}", s);

                let (parse_start, parse_end) = parse_times(&s);

                match start {
                    Some((d, _)) => assert_eq!(*d, parse_start.unwrap()),
                    None => assert_eq!(None, parse_start),
                }

                match end {
                    Some((d, _)) => assert_eq!(*d, parse_end.unwrap()),
                    None => match dur {
                        Some((d, _)) => match start {
                            Some((st, _)) => assert_eq!(parse_end.unwrap(), *st + *d),
                            None => assert_eq!(None, parse_end),
                        },
                        None => assert_eq!(None, parse_end),
                    },
                }
            }
        }
    }
}

#[test]
fn parse_times_against_regex() {
    let start_re = regex::Regex::new(
        r"(?:start|begin(?:ning)?)\s*=?\s*(?:(?P<hours>\d+)h\s?)?(?:(?P<minutes>\d+)m\s?)?(?:(?P<seconds>\d+)s?)?",
    )
    .unwrap();
    let dur_re = regex::Regex::new(
        r"dur(?:ation)?\s*=?\s*(?:(?P<hours>\d+)h\s?)?(?:(?P<minutes>\d+)m\s?)?(?:(?P<seconds>\d+)s?)?",
    )
    .unwrap();
    let end_re = regex::Regex::new(
        r"(?:end|term(?:inate|ination)?)\s*=?\s*(?:(?P<hours>\d+)h\s?)?(?:(?P<minutes>\d+)m\s?)?(?:(?P<seconds>\d+)s?)?",
    )
    .unwrap();

    let inputs = [
        "",
        "start 1h2m3s",
        "start 1",
        "start s",
        "begin 4h 5m 6s",
        "beginning=12m",
        "beginninggg 9s",
        "dur 1h2m3s",
        "duration  7s",
        "durat 5",
        "end 1h2m3s",
        "term 10",
        "terminate 1m",
        "termination 5514h19m58s",
        "terminations 3s",
        "xstart 5",
        "sstart 5",
        "play it start 1m dur 30 thanks",
        "start = 2m end = 4m",
        "start 12h34m56s dur 1h termination 99",
        "begin0h0m0s",
        "start 99999999999999999999h",
        "start 18446744073709551615",
        "start 1h 2m 3s",
        "start 1h  2m",
        "startstart 3",
        "endend 4",
        "terminate",
        "beginning",
        "dur",
        "startle 5s",
        "trend 7s",
        "bend 2m",
    ];

    for (kind, re) in [
        (TimeKind::Start, &start_re),
        (TimeKind::Dur, &dur_re),
        (TimeKind::End, &end_re),
    ] {
        for input in &inputs {
            let mine = captures_for(input, kind);
            let theirs = re.captures(input);
            match (&mine, &theirs) {
                (None, None) => {}
                (Some(m), Some(t)) => {
                    assert_eq!(
                        m.hours.as_deref(),
                        t.name("hours").map(|x| x.as_str()),
                        "hours for {:?} on {:?}",
                        kind,
                        input
                    );
                    assert_eq!(
                        m.minutes.as_deref(),
                        t.name("minutes").map(|x| x.as_str()),
                        "minutes for {:?} on {:?}",
                        kind,
                        input
                    );
                    assert_eq!(
                        m.seconds.as_deref(),
                        t.name("seconds").map(|x| x.as_str()),
                        "seconds for {:?} on {:?}",
                        kind,
                        input
                    );
                }
                _ => panic!(
                    "match disagreement for {:?} on {:?}: {:?} vs {:?}",
                    kind, input, mine, theirs
                ),
            }
        }
    }
}

#[test]
fn parse_times_exact_values() {
    assert_eq!(parse_times("start 1h2m3s"), (Some(3723), None));
    assert_eq!(parse_times("start 1m dur 30"), (Some(60), Some(90)));
    assert_eq!(parse_times("end 2m"), (None, Some(120)));
    assert_eq!(parse_times("dur 45"), (None, None));
    assert_eq!(parse_times("nothing here"), (None, None));
    // A digit run that overflows sixty-four bits reads as zero.
    assert_eq!(parse_times("start 99999999999999999999h"), (Some(0), None));
    // Start plus duration saturates instead of wrapping.
    assert_eq!(
        parse_times("start 18446744073709551615 dur 18446744073709551615"),
        (Some(u64::MAX), Some(u64::MAX))
    );
}
