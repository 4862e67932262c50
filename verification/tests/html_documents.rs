use playlist_pages::{generate_html, Item, Playlist, Track};
use serde_json::Value;

fn track(name: &str, artist: &str, album: &str, uri: &str) -> Track {
    Track {
        track_name: name.to_string(),
        artist_name: artist.to_string(),
        album_name: album.to_string(),
        track_uri: uri.to_string(),
    }
}

fn item(track: Track, added: &str) -> Item {
    Item {
        track,
        episode: Value::Null,
        audiobook: Value::Null,
        local_track: Value::Null,
        added_date: added.to_string(),
    }
}

fn playlist(name: &str, modified: &str, followers: i64, items: Vec<Item>) -> Playlist {
    Playlist {
        name: name.to_string(),
        last_modified_date: modified.to_string(),
        collaborators: Vec::new(),
        items,
        description: Value::Null,
        number_of_followers: followers,
    }
}

#[test]
fn html_document_with_one_track() {
    let playlist = playlist(
        "Road/Trip",
        "2023-01-01",
        5,
        vec![
            item(track("A & B", "X", "Y", "spotify:track:1"), "2023-01-02"),
        ],
    );
    let expected: String = [
        "<!DOCTYPE html>\n",
        "<html lang=\"en\">\n",
        "<head>\n",
        "    <meta charset=\"UTF-8\">\n",
        "    <meta name=\"viewport\" content=\"width=device-width, initial-scale=1.0\">\n",
        "    <title>Road/Trip</title>\n",
        "    <style>\n",
        "\n",
        "        body {\n",
        "            font-family: -apple-system, BlinkMacSystemFont, 'Segoe UI', Roboto, 'Helvetica Neue', Arial, sans-serif;\n",
        "            max-width: 1200px;\n",
        "            margin: 0 auto;\n",
        "            padding: 20px;\n",
        "            background-color: #f5f5f5;\n",
        "        }\n",
        "        .container {\n",
        "            background-color: white;\n",
        "            border-radius: 8px;\n",
        "            padding: 30px;\n",
        "            box-shadow: 0 2px 4px rgba(0,0,0,0.1);\n",
        "        }\n",
        "        h1 {\n",
        "            color: #1db954;\n",
        "            margin-bottom: 20px;\n",
        "        }\n",
        "        a {\n",
        "            color: #1db954;\n",
        "            text-decoration: none;\n",
        "        }\n",
        "        a:hover {\n",
        "            text-decoration: underline;\n",
        "        }\n",
        "        .back-to-top {\n",
        "            position: fixed;\n",
        "            bottom: 20px;\n",
        "            right: 20px;\n",
        "            background-color: #1db954;\n",
        "            color: white;\n",
        "            padding: 12px 20px;\n",
        "            border-radius: 25px;\n",
        "            text-decoration: none;\n",
        "            box-shadow: 0 2px 8px rgba(0,0,0,0.2);\n",
        "            transition: background-color 0.3s;\n",
        "        }\n",
        "        .back-to-top:hover {\n",
        "            background-color: #1ed760;\n",
        "            text-decoration: none;\n",
        "        }\n",
        "        .nav-link {\n",
        "            display: inline-block;\n",
        "            margin-bottom: 20px;\n",
        "            padding: 8px 16px;\n",
        "            background-color: #f0f0f0;\n",
        "            border-radius: 4px;\n",
        "        }\n",
        "            .metadata {\n",
        "            background-color: #f9f9f9;\n",
        "            padding: 15px;\n",
        "            border-radius: 5px;\n",
        "            margin-bottom: 30px;\n",
        "        }\n",
        "        .metadata p {\n",
        "            margin: 5px 0;\n",
        "        }\n",
        "        table {\n",
        "            width: 100%;\n",
        "            border-collapse: collapse;\n",
        "        }\n",
        "        th {\n",
        "            background-color: #1db954;\n",
        "            color: white;\n",
        "            padding: 12px;\n",
        "            text-align: left;\n",
        "        }\n",
        "        td {\n",
        "            padding: 12px;\n",
        "            border-bottom: 1px solid #ddd;\n",
        "        }\n",
        "        tr:hover {\n",
        "            background-color: #f5f5f5;\n",
        "        }\n",
        "        .track-number {\n",
        "            color: #999;\n",
        "            text-align: center;\n",
        "            width: 50px;\n",
        "        }\n",
        "    </style>\n",
        "</head>\n",
        "<body>\n",
        "    <div class=\"container\">\n",
        "        <a href=\"index.html\" class=\"nav-link\">\u{2190} Back to Index</a>\n",
        "        <h1>Road/Trip</h1>\n",
        "        <div class=\"metadata\">\n",
        "            <p><strong>Last Modified:</strong> 2023-01-01</p>\n",
        "            <p><strong>Followers:</strong> 5</p>\n",
        "            <p><strong>Total Tracks:</strong> 1</p>\n",
        "        </div>\n",
        "        <h2>Tracks</h2>\n",
        "        <table>\n",
        "            <thead>\n",
        "                <tr>\n",
        "                    <th class=\"track-number\">#</th>\n",
        "                    <th>Track Name</th>\n",
        "                    <th>Artist</th>\n",
        "                    <th>Album</th>\n",
        "                    <th>Added Date</th>\n",
        "                </tr>\n",
        "            </thead>\n",
        "            <tbody>\n",
        "                <tr>\n",
        "                    <td class=\"track-number\">1</td>\n",
        "                    <td><a href=\"spotify:track:1\">A &amp; B</a></td>\n",
        "                    <td>X</td>\n",
        "                    <td>Y</td>\n",
        "                    <td>2023-01-02</td>\n",
        "                </tr>\n",
        "            </tbody>\n",
        "        </table>\n",
        "        <a href=\"index.html\" class=\"nav-link\">\u{2190} Back to Index</a>\n",
        "    </div>\n",
        "    <a href=\"#\" class=\"back-to-top\">\u{2191} Top</a>\n",
        "</body>\n",
        "</html>",
    ].concat();
    assert_eq!(generate_html(&playlist), expected);
}

#[test]
fn html_document_with_no_items() {
    let playlist = playlist("Quiet <Hours>", "", -3, Vec::new());
    let expected: String = [
        "<!DOCTYPE html>\n",
        "<html lang=\"en\">\n",
        "<head>\n",
        "    <meta charset=\"UTF-8\">\n",
        "    <meta name=\"viewport\" content=\"width=device-width, initial-scale=1.0\">\n",
        "    <title>Quiet &lt;Hours&gt;</title>\n",
        "    <style>\n",
        "\n",
        "        body {\n",
        "            font-family: -apple-system, BlinkMacSystemFont, 'Segoe UI', Roboto, 'Helvetica Neue', Arial, sans-serif;\n",
        "            max-width: 1200px;\n",
        "            margin: 0 auto;\n",
        "            padding: 20px;\n",
        "            background-color: #f5f5f5;\n",
        "        }\n",
        "        .container {\n",
        "            background-color: white;\n",
        "            border-radius: 8px;\n",
        "            padding: 30px;\n",
        "            box-shadow: 0 2px 4px rgba(0,0,0,0.1);\n",
        "        }\n",
        "        h1 {\n",
        "            color: #1db954;\n",
        "            margin-bottom: 20px;\n",
        "        }\n",
        "        a {\n",
        "            color: #1db954;\n",
        "            text-decoration: none;\n",
        "        }\n",
        "        a:hover {\n",
        "            text-decoration: underline;\n",
        "        }\n",
        "        .back-to-top {\n",
        "            position: fixed;\n",
        "            bottom: 20px;\n",
        "            right: 20px;\n",
        "            background-color: #1db954;\n",
        "            color: white;\n",
        "            padding: 12px 20px;\n",
        "            border-radius: 25px;\n",
        "            text-decoration: none;\n",
        "            box-shadow: 0 2px 8px rgba(0,0,0,0.2);\n",
        "            transition: background-color 0.3s;\n",
        "        }\n",
        "        .back-to-top:hover {\n",
        "            background-color: #1ed760;\n",
        "            text-decoration: none;\n",
        "        }\n",
        "        .nav-link {\n",
        "            display: inline-block;\n",
        "            margin-bottom: 20px;\n",
        "            padding: 8px 16px;\n",
        "            background-color: #f0f0f0;\n",
        "            border-radius: 4px;\n",
        "        }\n",
        "            .metadata {\n",
        "            background-color: #f9f9f9;\n",
        "            padding: 15px;\n",
        "            border-radius: 5px;\n",
        "            margin-bottom: 30px;\n",
        "        }\n",
        "        .metadata p {\n",
        "            margin: 5px 0;\n",
        "        }\n",
        "        table {\n",
        "            width: 100%;\n",
        "            border-collapse: collapse;\n",
        "        }\n",
        "        th {\n",
        "            background-color: #1db954;\n",
        "            color: white;\n",
        "            padding: 12px;\n",
        "            text-align: left;\n",
        "        }\n",
        "        td {\n",
        "            padding: 12px;\n",
        "            border-bottom: 1px solid #ddd;\n",
        "        }\n",
        "        tr:hover {\n",
        "            background-color: #f5f5f5;\n",
        "        }\n",
        "        .track-number {\n",
        "            color: #999;\n",
        "            text-align: center;\n",
        "            width: 50px;\n",
        "        }\n",
        "    </style>\n",
        "</head>\n",
        "<body>\n",
        "    <div class=\"container\">\n",
        "        <a href=\"index.html\" class=\"nav-link\">\u{2190} Back to Index</a>\n",
        "        <h1>Quiet &lt;Hours&gt;</h1>\n",
        "        <div class=\"metadata\">\n",
        "            <p><strong>Last Modified:</strong> </p>\n",
        "            <p><strong>Followers:</strong> -3</p>\n",
        "            <p><strong>Total Tracks:</strong> 0</p>\n",
        "        </div>\n",
        "        <a href=\"index.html\" class=\"nav-link\">\u{2190} Back to Index</a>\n",
        "    </div>\n",
        "    <a href=\"#\" class=\"back-to-top\">\u{2191} Top</a>\n",
        "</body>\n",
        "</html>",
    ].concat();
    assert_eq!(generate_html(&playlist), expected);
}

#[test]
fn html_document_with_special_characters() {
    let playlist = playlist(
        "Rock & \"Roll\" | Best [of]",
        "2021-12-31T23:59:59Z <utc>",
        1234567,
        vec![
            item(track("Left | Right", "[The] Band", "A|B [Deluxe]", "spotify:track:abc?x=1&y=2"), "2020-02-29"),
            item(track("It's <Alive>", "Tom & \"Jerry\"", "Caf\u{e9} del Mar", "spotify:track:\"q\""), "<unknown>"),
            item(track("", "", "", ""), ""),
        ],
    );
    let expected: String = [
        "<!DOCTYPE html>\n",
        "<html lang=\"en\">\n",
        "<head>\n",
        "    <meta charset=\"UTF-8\">\n",
        "    <meta name=\"viewport\" content=\"width=device-width, initial-scale=1.0\">\n",
        "    <title>Rock &amp; &quot;Roll&quot; | Best [of]</title>\n",
        "    <style>\n",
        "\n",
        "        body {\n",
        "            font-family: -apple-system, BlinkMacSystemFont, 'Segoe UI', Roboto, 'Helvetica Neue', Arial, sans-serif;\n",
        "            max-width: 1200px;\n",
        "            margin: 0 auto;\n",
        "            padding: 20px;\n",
        "            background-color: #f5f5f5;\n",
        "        }\n",
        "        .container {\n",
        "            background-color: white;\n",
        "            border-radius: 8px;\n",
        "            padding: 30px;\n",
        "            box-shadow: 0 2px 4px rgba(0,0,0,0.1);\n",
        "        }\n",
        "        h1 {\n",
        "            color: #1db954;\n",
        "            margin-bottom: 20px;\n",
        "        }\n",
        "        a {\n",
        "            color: #1db954;\n",
        "            text-decoration: none;\n",
        "        }\n",
        "        a:hover {\n",
        "            text-decoration: underline;\n",
        "        }\n",
        "        .back-to-top {\n",
        "            position: fixed;\n",
        "            bottom: 20px;\n",
        "            right: 20px;\n",
        "            background-color: #1db954;\n",
        "            color: white;\n",
        "            padding: 12px 20px;\n",
        "            border-radius: 25px;\n",
        "            text-decoration: none;\n",
        "            box-shadow: 0 2px 8px rgba(0,0,0,0.2);\n",
        "            transition: background-color 0.3s;\n",
        "        }\n",
        "        .back-to-top:hover {\n",
        "            background-color: #1ed760;\n",
        "            text-decoration: none;\n",
        "        }\n",
        "        .nav-link {\n",
        "            display: inline-block;\n",
        "            margin-bottom: 20px;\n",
        "            padding: 8px 16px;\n",
        "            background-color: #f0f0f0;\n",
        "            border-radius: 4px;\n",
        "        }\n",
        "            .metadata {\n",
        "            background-color: #f9f9f9;\n",
        "            padding: 15px;\n",
        "            border-radius: 5px;\n",
        "            margin-bottom: 30px;\n",
        "        }\n",
        "        .metadata p {\n",
        "            margin: 5px 0;\n",
        "        }\n",
        "        table {\n",
        "            width: 100%;\n",
        "            border-collapse: collapse;\n",
        "        }\n",
        "        th {\n",
        "            background-color: #1db954;\n",
        "            color: white;\n",
        "            padding: 12px;\n",
        "            text-align: left;\n",
        "        }\n",
        "        td {\n",
        "            padding: 12px;\n",
        "            border-bottom: 1px solid #ddd;\n",
        "        }\n",
        "        tr:hover {\n",
        "            background-color: #f5f5f5;\n",
        "        }\n",
        "        .track-number {\n",
        "            color: #999;\n",
        "            text-align: center;\n",
        "            width: 50px;\n",
        "        }\n",
        "    </style>\n",
        "</head>\n",
        "<body>\n",
        "    <div class=\"container\">\n",
        "        <a href=\"index.html\" class=\"nav-link\">\u{2190} Back to Index</a>\n",
        "        <h1>Rock &amp; &quot;Roll&quot; | Best [of]</h1>\n",
        "        <div class=\"metadata\">\n",
        "            <p><strong>Last Modified:</strong> 2021-12-31T23:59:59Z &lt;utc&gt;</p>\n",
        "            <p><strong>Followers:</strong> 1234567</p>\n",
        "            <p><strong>Total Tracks:</strong> 3</p>\n",
        "        </div>\n",
        "        <h2>Tracks</h2>\n",
        "        <table>\n",
        "            <thead>\n",
        "                <tr>\n",
        "                    <th class=\"track-number\">#</th>\n",
        "                    <th>Track Name</th>\n",
        "                    <th>Artist</th>\n",
        "                    <th>Album</th>\n",
        "                    <th>Added Date</th>\n",
        "                </tr>\n",
        "            </thead>\n",
        "            <tbody>\n",
        "                <tr>\n",
        "                    <td class=\"track-number\">1</td>\n",
        "                    <td><a href=\"spotify:track:abc?x=1&y=2\">Left | Right</a></td>\n",
        "                    <td>[The] Band</td>\n",
        "                    <td>A|B [Deluxe]</td>\n",
        "                    <td>2020-02-29</td>\n",
        "                </tr>\n",
        "                <tr>\n",
        "                    <td class=\"track-number\">2</td>\n",
        "                    <td><a href=\"spotify:track:\"q\"\">It&#39;s &lt;Alive&gt;</a></td>\n",
        "                    <td>Tom &amp; &quot;Jerry&quot;</td>\n",
        "                    <td>Caf\u{e9} del Mar</td>\n",
        "                    <td>&lt;unknown&gt;</td>\n",
        "                </tr>\n",
        "                <tr>\n",
        "                    <td class=\"track-number\">3</td>\n",
        "                    <td><a href=\"\"></a></td>\n",
        "                    <td></td>\n",
        "                    <td></td>\n",
        "                    <td></td>\n",
        "                </tr>\n",
        "            </tbody>\n",
        "        </table>\n",
        "        <a href=\"index.html\" class=\"nav-link\">\u{2190} Back to Index</a>\n",
        "    </div>\n",
        "    <a href=\"#\" class=\"back-to-top\">\u{2191} Top</a>\n",
        "</body>\n",
        "</html>",
    ].concat();
    assert_eq!(generate_html(&playlist), expected);
}

#[test]
fn html_document_with_twelve_tracks() {
    let playlist = playlist(
        "Long",
        "2024-05-05",
        0,
        vec![
            item(track("T1", "A", "B", "u:1"), "d"),
            item(track("T2", "A", "B", "u:2"), "d"),
            item(track("T3", "A", "B", "u:3"), "d"),
            item(track("T4", "A", "B", "u:4"), "d"),
            item(track("T5", "A", "B", "u:5"), "d"),
            item(track("T6", "A", "B", "u:6"), "d"),
            item(track("T7", "A", "B", "u:7"), "d"),
            item(track("T8", "A", "B", "u:8"), "d"),
            item(track("T9", "A", "B", "u:9"), "d"),
            item(track("T10", "A", "B", "u:10"), "d"),
            item(track("T11", "A", "B", "u:11"), "d"),
            item(track("T12", "A", "B", "u:12"), "d"),
        ],
    );
    let expected: String = [
        "<!DOCTYPE html>\n",
        "<html lang=\"en\">\n",
        "<head>\n",
        "    <meta charset=\"UTF-8\">\n",
        "    <meta name=\"viewport\" content=\"width=device-width, initial-scale=1.0\">\n",
        "    <title>Long</title>\n",
        "    <style>\n",
        "\n",
        "        body {\n",
        "            font-family: -apple-system, BlinkMacSystemFont, 'Segoe UI', Roboto, 'Helvetica Neue', Arial, sans-serif;\n",
        "            max-width: 1200px;\n",
        "            margin: 0 auto;\n",
        "            padding: 20px;\n",
        "            background-color: #f5f5f5;\n",
        "        }\n",
        "        .container {\n",
        "            background-color: white;\n",
        "            border-radius: 8px;\n",
        "            padding: 30px;\n",
        "            box-shadow: 0 2px 4px rgba(0,0,0,0.1);\n",
        "        }\n",
        "        h1 {\n",
        "            color: #1db954;\n",
        "            margin-bottom: 20px;\n",
        "        }\n",
        "        a {\n",
        "            color: #1db954;\n",
        "            text-decoration: none;\n",
        "        }\n",
        "        a:hover {\n",
        "            text-decoration: underline;\n",
        "        }\n",
        "        .back-to-top {\n",
        "            position: fixed;\n",
        "            bottom: 20px;\n",
        "            right: 20px;\n",
        "            background-color: #1db954;\n",
        "            color: white;\n",
        "            padding: 12px 20px;\n",
        "            border-radius: 25px;\n",
        "            text-decoration: none;\n",
        "            box-shadow: 0 2px 8px rgba(0,0,0,0.2);\n",
        "            transition: background-color 0.3s;\n",
        "        }\n",
        "        .back-to-top:hover {\n",
        "            background-color: #1ed760;\n",
        "            text-decoration: none;\n",
        "        }\n",
        "        .nav-link {\n",
        "            display: inline-block;\n",
        "            margin-bottom: 20px;\n",
        "            padding: 8px 16px;\n",
        "            background-color: #f0f0f0;\n",
        "            border-radius: 4px;\n",
        "        }\n",
        "            .metadata {\n",
        "            background-color: #f9f9f9;\n",
        "            padding: 15px;\n",
        "            border-radius: 5px;\n",
        "            margin-bottom: 30px;\n",
        "        }\n",
        "        .metadata p {\n",
        "            margin: 5px 0;\n",
        "        }\n",
        "        table {\n",
        "            width: 100%;\n",
        "            border-collapse: collapse;\n",
        "        }\n",
        "        th {\n",
        "            background-color: #1db954;\n",
        "            color: white;\n",
        "            padding: 12px;\n",
        "            text-align: left;\n",
        "        }\n",
        "        td {\n",
        "            padding: 12px;\n",
        "            border-bottom: 1px solid #ddd;\n",
        "        }\n",
        "        tr:hover {\n",
        "            background-color: #f5f5f5;\n",
        "        }\n",
        "        .track-number {\n",
        "            color: #999;\n",
        "            text-align: center;\n",
        "            width: 50px;\n",
        "        }\n",
        "    </style>\n",
        "</head>\n",
        "<body>\n",
        "    <div class=\"container\">\n",
        "        <a href=\"index.html\" class=\"nav-link\">\u{2190} Back to Index</a>\n",
        "        <h1>Long</h1>\n",
        "        <div class=\"metadata\">\n",
        "            <p><strong>Last Modified:</strong> 2024-05-05</p>\n",
        "            <p><strong>Followers:</strong> 0</p>\n",
        "            <p><strong>Total Tracks:</strong> 12</p>\n",
        "        </div>\n",
        "        <h2>Tracks</h2>\n",
        "        <table>\n",
        "            <thead>\n",
        "                <tr>\n",
        "                    <th class=\"track-number\">#</th>\n",
        "                    <th>Track Name</th>\n",
        "                    <th>Artist</th>\n",
        "                    <th>Album</th>\n",
        "                    <th>Added Date</th>\n",
        "                </tr>\n",
        "            </thead>\n",
        "            <tbody>\n",
        "                <tr>\n",
        "                    <td class=\"track-number\">1</td>\n",
        "                    <td><a href=\"u:1\">T1</a></td>\n",
        "                    <td>A</td>\n",
        "                    <td>B</td>\n",
        "                    <td>d</td>\n",
        "                </tr>\n",
        "                <tr>\n",
        "                    <td class=\"track-number\">2</td>\n",
        "                    <td><a href=\"u:2\">T2</a></td>\n",
        "                    <td>A</td>\n",
        "                    <td>B</td>\n",
        "                    <td>d</td>\n",
        "                </tr>\n",
        "                <tr>\n",
        "                    <td class=\"track-number\">3</td>\n",
        "                    <td><a href=\"u:3\">T3</a></td>\n",
        "                    <td>A</td>\n",
        "                    <td>B</td>\n",
        "                    <td>d</td>\n",
        "                </tr>\n",
        "                <tr>\n",
        "                    <td class=\"track-number\">4</td>\n",
        "                    <td><a href=\"u:4\">T4</a></td>\n",
        "                    <td>A</td>\n",
        "                    <td>B</td>\n",
        "                    <td>d</td>\n",
        "                </tr>\n",
        "                <tr>\n",
        "                    <td class=\"track-number\">5</td>\n",
        "                    <td><a href=\"u:5\">T5</a></td>\n",
        "                    <td>A</td>\n",
        "                    <td>B</td>\n",
        "                    <td>d</td>\n",
        "                </tr>\n",
        "                <tr>\n",
        "                    <td class=\"track-number\">6</td>\n",
        "                    <td><a href=\"u:6\">T6</a></td>\n",
        "                    <td>A</td>\n",
        "                    <td>B</td>\n",
        "                    <td>d</td>\n",
        "                </tr>\n",
        "                <tr>\n",
        "                    <td class=\"track-number\">7</td>\n",
        "                    <td><a href=\"u:7\">T7</a></td>\n",
        "                    <td>A</td>\n",
        "                    <td>B</td>\n",
        "                    <td>d</td>\n",
        "                </tr>\n",
        "                <tr>\n",
        "                    <td class=\"track-number\">8</td>\n",
        "                    <td><a href=\"u:8\">T8</a></td>\n",
        "                    <td>A</td>\n",
        "                    <td>B</td>\n",
        "                    <td>d</td>\n",
        "                </tr>\n",
        "                <tr>\n",
        "                    <td class=\"track-number\">9</td>\n",
        "                    <td><a href=\"u:9\">T9</a></td>\n",
        "                    <td>A</td>\n",
        "                    <td>B</td>\n",
        "                    <td>d</td>\n",
        "                </tr>\n",
        "                <tr>\n",
        "                    <td class=\"track-number\">10</td>\n",
        "                    <td><a href=\"u:10\">T10</a></td>\n",
        "                    <td>A</td>\n",
        "                    <td>B</td>\n",
        "                    <td>d</td>\n",
        "                </tr>\n",
        "                <tr>\n",
        "                    <td class=\"track-number\">11</td>\n",
        "                    <td><a href=\"u:11\">T11</a></td>\n",
        "                    <td>A</td>\n",
        "                    <td>B</td>\n",
        "                    <td>d</td>\n",
        "                </tr>\n",
        "                <tr>\n",
        "                    <td class=\"track-number\">12</td>\n",
        "                    <td><a href=\"u:12\">T12</a></td>\n",
        "                    <td>A</td>\n",
        "                    <td>B</td>\n",
        "                    <td>d</td>\n",
        "                </tr>\n",
        "            </tbody>\n",
        "        </table>\n",
        "        <a href=\"index.html\" class=\"nav-link\">\u{2190} Back to Index</a>\n",
        "    </div>\n",
        "    <a href=\"#\" class=\"back-to-top\">\u{2191} Top</a>\n",
        "</body>\n",
        "</html>",
    ].concat();
    assert_eq!(generate_html(&playlist), expected);
}

#[test]
fn html_document_without_items_has_no_table() {
    let playlist = playlist("Empty", "2020-01-01", 7, Vec::new());
    let text = generate_html(&playlist);
    assert!(!text.contains("<table>"));
    assert!(!text.contains("<h2>Tracks</h2>"));
    assert!(!text.contains("<tbody>"));
    assert!(text.contains("            <p><strong>Last Modified:</strong> 2020-01-01</p>\n"));
    assert!(text.contains("            <p><strong>Followers:</strong> 7</p>\n"));
    assert!(text.contains("            <p><strong>Total Tracks:</strong> 0</p>\n"));
    assert!(text.contains("    <title>Empty</title>\n"));
    assert!(text.contains("        <h1>Empty</h1>\n"));
    assert!(text.ends_with(concat_all(&[
        "            <p><strong>Total Tracks:</strong> 0</p>\n",
        "        </div>\n",
        "        <a href=\"index.html\" class=\"nav-link\">\u{2190} Back to Index</a>\n",
        "    </div>\n",
        "    <a href=\"#\" class=\"back-to-top\">\u{2191} Top</a>\n",
        "</body>\n",
        "</html>",
    ]).as_str()));
}

fn concat_all(parts: &[&str]) -> String {
    parts.concat()
}

const INDEX_LINK: &str =
    "        <a href=\"index.html\" class=\"nav-link\">\u{2190} Back to Index</a>\n";

#[test]
fn html_document_links_the_index_above_the_title_and_below_the_tracks() {
    let playlist = playlist(
        "p",
        "m",
        0,
        vec![item(track("t", "a", "b", "u"), "d"), item(track("t2", "a", "b", "u2"), "d")],
    );
    let text = generate_html(&playlist);
    assert_eq!(text.matches(INDEX_LINK).count(), 2);
    assert_eq!(text.matches("href=\"index.html\"").count(), 2);
    let first = text.find(INDEX_LINK).unwrap();
    let second = text.rfind(INDEX_LINK).unwrap();
    let title = text.find("        <h1>p</h1>\n").unwrap();
    let table_end = text.find("        </table>\n").unwrap();
    assert!(text[..first].ends_with("    <div class=\"container\">\n"));
    assert_eq!(first + INDEX_LINK.len(), title);
    assert_eq!(table_end + "        </table>\n".len(), second);
    assert!(text[second + INDEX_LINK.len()..].starts_with("    </div>\n"));
}

#[test]
fn html_document_without_items_links_the_index_twice() {
    let playlist = playlist("Empty", "2020-01-01", 7, Vec::new());
    let text = generate_html(&playlist);
    assert_eq!(text.matches(INDEX_LINK).count(), 2);
    let second = text.rfind(INDEX_LINK).unwrap();
    assert!(text[..second].ends_with("            <p><strong>Total Tracks:</strong> 0</p>\n        </div>\n"));
    assert_eq!(text.matches("class=\"back-to-top\"").count(), 1);
    let top = text.find("    <a href=\"#\" class=\"back-to-top\">").unwrap();
    assert!(second < top);
}

#[test]
fn html_document_escapes_every_user_text() {
    let playlist = playlist(
        "<b>N&M</b>",
        "\"now\"",
        1,
        vec![item(track("<i>t</i>", "a&b", "'c'", "uri"), "d<e")],
    );
    let text = generate_html(&playlist);
    assert!(text.contains("    <title>&lt;b&gt;N&amp;M&lt;/b&gt;</title>\n"));
    assert!(text.contains("        <h1>&lt;b&gt;N&amp;M&lt;/b&gt;</h1>\n"));
    assert!(text.contains("<strong>Last Modified:</strong> &quot;now&quot;</p>\n"));
    assert!(text.contains("<td><a href=\"uri\">&lt;i&gt;t&lt;/i&gt;</a></td>\n"));
    assert!(text.contains("<td>a&amp;b</td>\n"));
    assert!(text.contains("<td>&#39;c&#39;</td>\n"));
    assert!(text.contains("<td>d&lt;e</td>\n"));
    assert!(!text.contains("<b>"));
    assert!(!text.contains("<i>"));
}

#[test]
fn html_document_links_the_track_uri_as_it_is() {
    let playlist = playlist(
        "p",
        "m",
        0,
        vec![item(track("t", "a", "b", "https://x.test/?a=1&b=<2>"), "d")],
    );
    let text = generate_html(&playlist);
    assert!(text.contains("<td><a href=\"https://x.test/?a=1&b=<2>\">t</a></td>\n"));
}

#[test]
fn html_document_holds_the_shared_styles_once() {
    let playlist = playlist("p", "m", 0, Vec::new());
    let text = generate_html(&playlist);
    let styles = playlist_pages::get_common_styles();
    assert_eq!(text.matches(styles).count(), 1);
    let at = text.find(styles).unwrap();
    assert!(text[..at].ends_with("    <style>\n"));
    assert!(text[at + styles.len()..].starts_with("        .metadata {\n"));
}

#[test]
fn html_document_is_the_same_on_every_call() {
    let playlist = playlist("Twice", "2022", 2, vec![item(track("t", "a", "b", "u"), "d")]);
    let first = generate_html(&playlist);
    let second = generate_html(&playlist);
    assert_eq!(first.as_bytes(), second.as_bytes());
    assert_eq!(generate_html(&playlist.clone()), first);
}

#[test]
fn html_rows_are_numbered_from_one_in_order() {
    let playlist = playlist(
        "p",
        "m",
        0,
        vec![
            item(track("first", "a", "b", "u1"), "d1"),
            item(track("second", "a", "b", "u2"), "d2"),
        ],
    );
    let text = generate_html(&playlist);
    let one = text
        .find("<td class=\"track-number\">1</td>\n                    <td><a href=\"u1\">first</a></td>\n")
        .unwrap();
    let two = text
        .find("<td class=\"track-number\">2</td>\n                    <td><a href=\"u2\">second</a></td>\n")
        .unwrap();
    assert!(one < two);
    assert_eq!(text.matches("                <tr>\n").count(), 3);
}
