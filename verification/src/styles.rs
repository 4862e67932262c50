//! Style sheets of the generated HTML pages.
//!
//! Each page holds the shared rules followed by the rules of its own kind.
//! All three blocks are fixed text.

use vstd::prelude::*;

verus! {

/// The rules common to all pages: page container, heading and link accent
/// colour, the floating "back to top" button and the navigation chip.
pub const COMMON_STYLES: &'static str = r#"
        body {
            font-family: -apple-system, BlinkMacSystemFont, 'Segoe UI', Roboto, 'Helvetica Neue', Arial, sans-serif;
            max-width: 1200px;
            margin: 0 auto;
            padding: 20px;
            background-color: #f5f5f5;
        }
        .container {
            background-color: white;
            border-radius: 8px;
            padding: 30px;
            box-shadow: 0 2px 4px rgba(0,0,0,0.1);
        }
        h1 {
            color: #1db954;
            margin-bottom: 20px;
        }
        a {
            color: #1db954;
            text-decoration: none;
        }
        a:hover {
            text-decoration: underline;
        }
        .back-to-top {
            position: fixed;
            bottom: 20px;
            right: 20px;
            background-color: #1db954;
            color: white;
            padding: 12px 20px;
            border-radius: 25px;
            text-decoration: none;
            box-shadow: 0 2px 8px rgba(0,0,0,0.2);
            transition: background-color 0.3s;
        }
        .back-to-top:hover {
            background-color: #1ed760;
            text-decoration: none;
        }
        .nav-link {
            display: inline-block;
            margin-bottom: 20px;
            padding: 8px 16px;
            background-color: #f0f0f0;
            border-radius: 4px;
        }
    "#;

/// The rules of a playlist page: metadata panel and track table.
pub const PLAYLIST_PAGE_STYLES: &'static str = r#"        .metadata {
            background-color: #f9f9f9;
            padding: 15px;
            border-radius: 5px;
            margin-bottom: 30px;
        }
        .metadata p {
            margin: 5px 0;
        }
        table {
            width: 100%;
            border-collapse: collapse;
        }
        th {
            background-color: #1db954;
            color: white;
            padding: 12px;
            text-align: left;
        }
        td {
            padding: 12px;
            border-bottom: 1px solid #ddd;
        }
        tr:hover {
            background-color: #f5f5f5;
        }
        .track-number {
            color: #999;
            text-align: center;
            width: 50px;
        }
"#;

/// The rules of the index page: statistics cards and the playlist grid.
pub const INDEX_PAGE_STYLES: &'static str = r#"        .stats {
            display: flex;
            gap: 30px;
            margin-bottom: 30px;
        }
        .stat-card {
            background-color: #f9f9f9;
            padding: 20px;
            border-radius: 8px;
            flex: 1;
        }
        .stat-card h3 {
            margin: 0 0 10px 0;
            color: #666;
            font-size: 14px;
            text-transform: uppercase;
        }
        .stat-card p {
            margin: 0;
            font-size: 32px;
            font-weight: bold;
            color: #1db954;
        }
        .playlist-grid {
            display: grid;
            grid-template-columns: repeat(auto-fill, minmax(300px, 1fr));
            gap: 20px;
        }
        .playlist-card {
            background-color: #f9f9f9;
            padding: 20px;
            border-radius: 8px;
            transition: transform 0.2s, box-shadow 0.2s;
        }
        .playlist-card:hover {
            transform: translateY(-2px);
            box-shadow: 0 4px 12px rgba(0,0,0,0.15);
        }
        .playlist-card h3 {
            margin: 0 0 10px 0;
            color: #333;
        }
        .playlist-card h3 a {
            color: #333;
        }
        .playlist-meta {
            color: #666;
            font-size: 14px;
        }
"#;

/// The shared style block, the same text on every call.
pub fn get_common_styles() -> (r: &'static str)
    ensures
        r@ == COMMON_STYLES@,
{
    COMMON_STYLES
}

} // verus!
