use oxine::annotate::{annotate, note, NOTES};

const COMMENTS: [(&str, &str); 17] = [
    ("packet_timeout", "How long the server should wait before disconnecting a player, in seconds."),
    ("ping_spacing", "How often the server sends pings to clients, in seconds."),
    ("default_world", "The world that players first connect to when joining."),
    ("operators", "A list of usernames that have operator permissions."),
    ("kept_salts", "How many \"salts\" to keep in memory.\nSalts are used to verify a user's key.\nIf this is set to 0, then users will not be verified."),
    ("name", "The server's displayed name."),
    ("heartbeat_url", "The URL to ping for heartbeat pings.\n\nIf this is left blank, then no heartbeat pings will be sent.\nIf this is left blank AND kept_salts is above 0,\nthe program will exit with an error,\nas it will be impossible for users to join."),
    ("heartbeat_spacing", "How often heartbeat pings will be sent, in seconds."),
    ("heartbeat_timeout", "How long the server will wait to hear back from the heartbeat server, in seconds."),
    ("ip", "The IP to listen for connections on."),
    ("port", "The port to host the server on."),
    ("max_players", "The maximum amount of players on the server."),
    ("public", "Whether the server will show as public on the heartbeat URLs corresponding server list."),
    ("motd", "The server's MOTD."),
    ("max_message_length", "The maximum length of a sent message. Messages above this threshold will be clipped."),
    ("[banned_ips]", "A mapping of IPs to ban reasons."),
    ("[banned_users]", "A mapping of usernames to ban reasons."),
];

fn by_lines(text: &str) -> String {
    let mut parts: Vec<&str> = Vec::new();
    for line in text.lines() {
        let mut commented = false;
        for (prefix, comment) in COMMENTS {
            if line.starts_with(prefix) {
                for comment_line in comment.lines() {
                    parts.push("# ");
                    parts.push(comment_line);
                    parts.push("\n");
                }
                commented = !prefix.starts_with('[');
                break;
            }
        }
        parts.push(line);
        parts.push("\n");
        if commented {
            parts.push("\n");
        }
    }
    parts.join("")
}

#[test]
fn notes_are_the_comments_line_by_line() {
    assert_eq!(NOTES, 17);
    for (index, (prefix, comment)) in COMMENTS.iter().enumerate() {
        let (found, block) = note(index);
        assert_eq!(found, *prefix);
        let expected: String = comment.lines().map(|line| format!("# {}\n", line)).collect();
        assert_eq!(block, expected);
    }
}

#[test]
fn a_setting_gets_its_note_and_an_empty_line() {
    assert_eq!(
        annotate("port = 25565\n"),
        "# The port to host the server on.\nport = 25565\n\n"
    );
    assert_eq!(
        annotate("kept_salts = 0"),
        "# How many \"salts\" to keep in memory.\n# Salts are used to verify a user's key.\n# If this is set to 0, then users will not be verified.\nkept_salts = 0\n\n"
    );
}

#[test]
fn a_table_gets_its_note_and_no_empty_line() {
    assert_eq!(
        annotate("[banned_ips]\n\"0.0.0.0\" = \"<ban reason>\"\n"),
        "# A mapping of IPs to ban reasons.\n[banned_ips]\n\"0.0.0.0\" = \"<ban reason>\"\n"
    );
}

#[test]
fn other_lines_stay_as_they_are() {
    assert_eq!(annotate(""), "");
    assert_eq!(annotate("\n"), "\n");
    assert_eq!(annotate("x = 1"), "x = 1\n");
    assert_eq!(annotate("x = 1\n\ny = 2\n"), "x = 1\n\ny = 2\n");
    assert_eq!(annotate(" port = 1\n"), " port = 1\n");
}

#[test]
fn the_first_note_that_fits_is_taken() {
    assert_eq!(annotate("name"), "# The server's displayed name.\nname\n\n");
    assert_eq!(annotate("names = 3"), "# The server's displayed name.\nnames = 3\n\n");
    assert_eq!(annotate("ip = \"::1\""), "# The IP to listen for connections on.\nip = \"::1\"\n\n");
}

#[test]
fn carriage_returns_before_line_feeds_are_dropped() {
    assert_eq!(annotate("a\r\nb\r\n"), "a\nb\n");
    assert_eq!(annotate("a\r"), "a\r\n");
    assert_eq!(annotate("a\r\r\n"), "a\r\n");
    assert_eq!(annotate("\r\n"), "\n");
}

#[test]
fn annotate_agrees_with_the_line_by_line_reading() {
    let serialized = "packet_timeout = 10.0\nping_spacing = 0.5\ndefault_world = \"default\"\nip = \"127.0.0.1\"\noperators = []\nkept_salts = 0\nname = \"<Unnamed Server>\"\nheartbeat_url = \"\"\nheartbeat_spacing = 5.0\nheartbeat_timeout = 5.0\nport = 25565\nmax_players = 64\npublic = false\nmotd = \"Running on Honeybit\"\nmax_message_length = 256\n\n[banned_ips]\n\"0.0.0.0\" = \"<ban reason>\"\n\n[banned_users]\nAlice = \"<ban reason>\"\n";
    assert_eq!(annotate(serialized), by_lines(serialized));
    for text in [
        "",
        "\n",
        "\n\n",
        "port",
        "port\n",
        "port\r\nname\r\n",
        "motd = \"caf\u{00E9} \u{263B}\"\n[banned_users]",
        "heartbeat_url = \"x\"\nheartbeat_retries = 5\n",
        "[banned_ipsx]\n[banned]\n",
        "a\rb\nc\r",
    ] {
        assert_eq!(annotate(text), by_lines(text), "for {:?}", text);
    }
}
