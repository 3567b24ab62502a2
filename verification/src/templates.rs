//! The fixed pieces of the web pages of the recipe and brew manager.
use vstd::prelude::*;

verus! {

pub const RECIPE_FORM_HEAD: &'static str = r#"
    <!DOCTYPE html>
    <html>
        <head>
        <title>Create or Edit a Recipe</title>
        <style>
            body {
                margin: 0;
                font-family: Georgia;
                display: flex;
                justify-content: center;
                align-items: center;
                min-height: 30vh;
                background: white;
            }

            .container {
                background: #FAFAFA;
                padding: 30px;
                border-radius: 16px;
                width: 80%;
            }

            h1 {
                text-align: center;
                margin-bottom: 20px;
                color: black;
            }

            input[type="text"],input[type="number"] {
                width: 100%;
                padding: 10px;
                border-radius: 8px;
                border: 1px solid #ccc;
                margin-bottom: 15px;
                box-sizing: border-box;
                font-family: Georgia;
                font-size: 24px;
            }

            table {
                width: 100%;
                border-collapse: collapse;
                margin-bottom: 20px;
                font-family: Georgia;
                font-size: 24px;
            }



            th {
                text-align: left;
                padding: 8px;
                color: black;
            }

            td {
                padding: 5px;
            }

            td input {
                width: 100%;
                padding: 8px;
                border-radius: 6px;
                border: 1px solid #ccc;
                box-sizing: border-box;
            }

            button {
                width: 100%;
                padding: 12px;
                border: none;
                border-radius: 8px;
                font-size: 24px;
                cursor: pointer;
                font-family: Georgia;
            }

            .name_class {
                text-align: center;
                font-family: Georgia;
                font-size: 24px;
            }

            .name_class > input {
                text-align: left;
            }
        </style>
        </head>
        <body>
            <div class="container">
            <form>
                <h1>Define your new Recipe!</h1>
                "#;

pub const RECIPE_FORM_NAME: &'static str = r#"
                <div class="name_class">
                    <b>Name:</b> 
                    <input type="text" name="name", value=""#;

pub const RECIPE_FORM_TABLE: &'static str = r#"" style="width: 50%">
                </div>
                <table>
                    <tr>
                        <th>
                            <label>Minute</label>
                        </th>
                        <th>
                            <label>Second</label>
                        </th>
                        <th>
                            <label>Next Target</label>
                        </th>
                        <th>
                            <label>Notes</label>
                        </th>
                    </tr>
    "#;

pub const HIDDEN_ID_OPEN: &'static str = r#"<input type="hidden" name="id" value="#;

pub const HIDDEN_ID_CLOSE: &'static str = r#">"#;

pub const RECIPE_FORM_ROW_MINUTE: &'static str = r#"
            <tr>
                <td><input type="number" name="minutes" value=""#;

pub const RECIPE_FORM_ROW_SECOND: &'static str = r#""></td>
                <td><input type="number" name="seconds" value=""#;

pub const RECIPE_FORM_ROW_TARGET: &'static str = r#""></td>
                <td><input type="number" name="targets" value=""#;

pub const RECIPE_FORM_ROW_NOTE: &'static str = r#""></td>
                <td><input type="text" name="notes" value=""#;

pub const RECIPE_FORM_ROW_END: &'static str = r#"" size="50"></td>
            </tr>
            "#;

pub const RECIPE_FORM_END_OPEN: &'static str = r#"
                    </table>
                "#;

pub const RECIPE_FORM_END_CLOSE: &'static str = r#"
            </form>
        </div>
    </body
</html>"#;

pub const SAVE_BUTTON: &'static str = r#"<button type="submit" formmethod="post">Save</button>"#;

pub const RECIPE_LIST_HEAD: &'static str = r#"
    <!DOCTYPE html>
    <html>
        <head>
            <title>List of Recipes</title>
            <style>
                body {
                    margin: 0;
                    font-family: Georgia;
                    min-height: 30vh;
                    display: flex;
                    justify-content: center;
                    align-items: flex-start;
                    font-size: 24px;
                }

                .container {
                    background: #FAFAFA;
                    margin-top: 40px;
                    padding: 30px;
                    border-radius: 16px;
                    width: 80%;
                }

                h1 {
                    text-align: center;
                    margin-bottom: 20px;
                }

                .home-btn {
                    display: block;
                    margin-bottom: 20px;
                    text-align: center;
                    text-decoration: none;
                    padding: 10px;
                    border-radius: 8px;
                    background: #eeeeee;
                    font-weight: bold;
                    width: 30%;
                    border: none;
                    font-size: 24px;
                }

                .button-row {
                    display: flex;
                    width: 100%;
                    gap: 10px;
                }

                .button-row button {
                    flex: 1;
                    padding: 10px;
                    font-size: 24px;
                }

                .bottom-space {
                    margin-bottom: 20px;
                }

                button {
                    border: none;
                    border-radius: 8px;
                    font-size: 24px;
                    cursor: pointer;
                    font-family: Georgia;
                }
            </style>
        </head>
        <body>
            <div class="container">
                <h1>Overview of all Recipes</h1>
                <form action="/" method="get">
                    <button type="submit" style="width: 20%; padding: 10px;">Back Home</button>
                </form>
                <ul>
    "#;

pub const RECIPE_LIST_ROW_NAME: &'static str = r#"
            <li class="bottom-space">
                "#;

pub const RECIPE_LIST_ROW_COUNT: &'static str = r#"<br> 
                Brewcount: "#;

pub const RECIPE_LIST_ROW_DESCR: &'static str = r#"
                <form>
                    <div class="button-row">
                        <button style="flex:1; gap: 20p;" type="submit" formaction="/recipe_list/descr?id="#;

pub const RECIPE_LIST_ROW_EDIT: &'static str = r#"" formmethod="post">
                            Description
                        </button>
                        <button style="flex:1; gap: 20p;" type="submit" formaction="/recipe_list/edit?id="#;

pub const RECIPE_LIST_ROW_DELETE: &'static str = r#"" formmethod="post">
                            Edit
                        </button>
                        <button style="flex:1; gap: 20p;" type="submit" formaction="/recipe_list/delete?id="#;

pub const RECIPE_LIST_ROW_END: &'static str = r#"" formmethod="post" onclick="return confirm('Are you sure you want to delete this recipe?');">
                            Delete
                        </button>
                    </div>
                </form>
            </li>
            "#;

pub const LIST_END: &'static str = r#"
                </ul>
            </div>
        </body>
    </html>
    "#;

pub const FILTER_OPTION_VALUE: &'static str = r#"<option value=""#;

pub const FILTER_OPTION_NAME: &'static str = r#"">"#;

pub const FILTER_OPTION_END: &'static str = r#"</option>"#;

pub const BREW_LIST_HEAD: &'static str = r#"
    <!DOCTYPE html>
    <html>
        <head>
            <title>List of Brews</title>
            <style>
                body {
                    margin: 0;
                    font-family: Georgia;
                    min-height: 30vh;
                    display: flex;
                    justify-content: center;
                    align-items: flex-start;
                    font-size: 24px;
                }

                .container {
                    background: #FAFAFA;
                    margin-top: 40px;
                    padding: 30px;
                    border-radius: 16px;
                    width: 80%;
                }

                h1 {
                    text-align: center;
                    margin-bottom: 20px;
                }

                .home-btn {
                    display: block;
                    margin-bottom: 20px;
                    text-align: center;
                    text-decoration: none;
                    padding: 10px;
                    border-radius: 8px;
                    background: #eeeeee;
                    font-weight: bold;
                    width: 30%;
                    border: none;
                    font-size: 24px;
                }

                .button-row {
                    display: flex;
                    width: 100%;
                    gap: 10px;
                }

                .button-row button {
                    flex: 1;
                    padding: 10px;
                    font-size: 24px;
                }

                .bottom-space {
                    margin-bottom: 20px;
                    font-size: 24px;
                }

                button {
                    border: none;
                    border-radius: 8px;
                    font-size: 24px;
                    cursor: pointer;
                    font-family: Georgia;
                    padding: 10px;
                }

                select {
                    border: none;
                    border-radius: 8px;
                    font-size: 24px;
                    font-family: Georgia;
                    padding: 10px;
                }
            </style>
        </head>
    "#;

pub const BREW_LIST_BODY_OPTIONS: &'static str = r#"
        <body style="font-size: 100%;">
            <div class="container">
                <h1>Overview of all Brews in Chronological Order</h1>
                <form action="/brew_list/filtered" method="get">
                    <label for="recipes" style="font-size: 24px">Filter for a specific recipe:</label>
                    <select id="recipes" name="recipe_filter">
                        "#;

pub const BREW_LIST_BODY_REMOVE: &'static str = r#"
                    </select>
                    <button type="submit" style="width: 15%">Filter</button>
                    "#;

pub const BREW_LIST_BODY_LIST: &'static str = r#"
                    <button type="submit" style="width: 20%; padding: 10px;" formaction="/" formmethod="get">Back Home</button>
                </form>
                <ul>
    "#;

pub const REMOVE_FILTER_BUTTON: &'static str = r#"<button type="submit" style="width: 15%" formaction="/brew_list">Remove Filter</button>"#;

pub const BREW_LIST_ROW_TIME: &'static str = r#"
            <li class="bottom-space">
                Brew from "#;

pub const BREW_LIST_ROW_AGO: &'static str = r#" ("#;

pub const BREW_LIST_ROW_NAME: &'static str = r#" ago)<br>
                using "#;

pub const BREW_LIST_ROW_DESCR: &'static str = r#"
                <form>
                    <div class="button-row">
                        <button style="flex:1; gap: 20p;" type="submit" formaction="/brew_list/descr?id="#;

pub const BREW_LIST_ROW_EDIT: &'static str = r#"" formmethod="post">
                            Brew Description
                        </button>
                        <button style="flex:1; gap: 20p;" type="submit" formaction="/brew_list/edit_notes?id="#;

pub const BREW_LIST_ROW_DELETE: &'static str = r#"" formmethod="post">
                            Edit Notes
                        </button>
                        <button style="flex:1; gap: 20p;" type="submit" formaction="/brew_list/delete?id="#;

pub const BREW_LIST_ROW_END: &'static str = r#"" formmethod="post" onclick="return confirm('Are you sure you want to delete this recipe?');">
                            Delete
                        </button>
                    </div>
                </form>
            </li>
            "#;

pub const RECIPE_DESCR_HEAD: &'static str = r#"
    <!DOCTYPE html>
    <html>
        <head>
            <title>Recipe Description</title>
            <style>
            body {
                margin: 0;
                font-family: Georgia;
                display: flex;
                justify-content: center;
                align-items: flex-start;
                min-height: 30vh;
                font-size: 24px;
            }

            .container {
                background: #FAFAFA;
                margin-top: 40px;
                padding: 30px;
                border-radius: 16px;
                width: 80%;
            }  

            h1 {
                text-align: center;
                margin-bottom: 25px;
            }

            table {
                width: 100%;
                border-collapse: collapse;
                overflow: hidden;
                border-radius: 10px;
            }

            th, td {
                padding: 12px;
                text-align: left;
            }

            tbody tr:nth-child(even) {
                background: #f9f9f9;
            }

            tbody tr:hover {
                background: #f1f1f1;
            }

            th {
                font-weight: 600;
            }
        </style>
        </head>
        <body>
            <div class=container>
                <h1>"#;

pub const RECIPE_DESCR_TABLE: &'static str = r#"</h1>
                <table>
                    <colgroup>
                        <col style="width: 5ch;">
                        <col style="width: 20ch;">
                        <col> <!-- remaining space -->
                    </colgroup>
                    <tr>
                        <th>Time</th>
                        <th>Next Pour Target</th>
                        <th>Notes</th>
                    </tr>
    "#;

pub const RECIPE_DESCR_ROW_MINUTE: &'static str = r#"
            <tr>
                <td>"#;

pub const RECIPE_DESCR_ROW_SECOND: &'static str = r#":"#;

pub const RECIPE_DESCR_ROW_TARGET: &'static str = r#"</td>
                <td>"#;

pub const RECIPE_DESCR_ROW_NOTE: &'static str = r#"ml</td>
                <td>"#;

pub const RECIPE_DESCR_ROW_END: &'static str = r#"</td>
            </tr>
            "#;

pub const RECIPE_DESCR_END: &'static str = r#"
                </table>
            </div>
        </body>
    </html>
    "#;

pub const BREW_DESCR_HEAD: &'static str = r#"
        <!DOCTYPE html>
        <html>
            <head>
            <title>Description of a Brew</title>
            <style>
            body {
                margin: 0;
                font-family: Georgia;
                display: flex;
                justify-content: center;
                align-items: flex-start;
                min-height: 30vh;
                font-size: 24px;
            }

            .container {
                background: #FAFAFA;
                margin-top: 40px;
                padding: 30px;
                border-radius: 16px;
                width: 80%;
            }  

            h1 {
                text-align: center;
                margin-bottom: 25px;
            }

            table {
                width: 100%;
                border-collapse: collapse;
                overflow: hidden;
                border-radius: 10px;
            }

            th, td {
                padding: 12px;
                text-align: left;
            }

            tbody tr:nth-child(even) {
                background: #f9f9f9;
            }

            tbody tr:hover {
                background: #f1f1f1;
            }

            th {
                font-weight: 600;
            }
        </style>
        </head>
            <body>
                <div class="container">
                <h1>Description of a Brew from "#;

pub const BREW_DESCR_RECIPE_ID: &'static str = r#"</h1>
                    <table>
                        <colgroup>
                            <col style="width: 20ch;">
                            <col>
                        </colgroup>
                        <tr>
                            <td>Recipe</td>
                            <td>
                                <form method="post" action="/recipe_list/descr?id="#;

pub const BREW_DESCR_RECIPE_NAME: &'static str = r#"" style="display:inline;">
                                    <button type="submit" style="
                                        background:none;
                                        border:none;
                                        color:blue;
                                        text-decoration:underline;
                                        cursor:pointer;
                                        padding:0;
                                        font-family: Georgia;
                                        font-size: 24px;
                                    ">
                                    "#;

pub const BREW_DESCR_TEMP: &'static str = r#"
                                    </button>
                                </form>
                            </td>
                        </tr>
                        <tr>
                            <td>Water Temperature</td>
                            <td>"#;

pub const BREW_DESCR_GRIND: &'static str = r#"°C</td>
                        </tr>
                        <tr>
                            <td>Grind Size</td>
                            <td>"#;

pub const BREW_DESCR_WATER: &'static str = r#"</td>
                        </tr>
                        <tr>
                            <td>Weight in Water</td>
                            <td>"#;

pub const BREW_DESCR_COFFEE: &'static str = r#"ml</td>
                        </tr>
                        <tr>
                            <td>Weight in Coffee</td>
                            <td>"#;

pub const BREW_DESCR_NOTES: &'static str = r#"g</td>
                        </tr>
                        "#;

pub const BREW_DESCR_END: &'static str = r#"
                    </table>
                </div>
            </body>
        </html>"#;

pub const BREW_NOTES_ROW_OPEN: &'static str = r#"
            <tr>
                <td>Notes</td>
                <td>"#;

pub const BREW_NOTES_ROW_CLOSE: &'static str = r#"</td>
            </tr>
        "#;

pub const NOTES_EDIT_HEAD: &'static str = r#"
        <!DOCTYPE html>
        <html>
            <head>
                <title>Edit Brew Notes</title>
                <style>
                    body {
                        margin: 0;
                        font-family: Georgia;
                        height: 30vh;
                        display: flex;
                        align-items: center;
                        justify-content: center;
                    }

                    .container {
                        background: #FAFAFA;
                        padding: 40px;
                        border-radius: 16px;
                        text-align: center;
                        width: 60%;
                    }

                    h1 {
                        margin-bottom: 20px;
                        font-size: 2rem;
                    }

                    input[type="text"] {
                        width: 40%;
                        padding: 12px;
                        margin-bottom: 15px;
                        border: 1px solid #ccc;
                        border-radius: 8px;
                        font-size: 24px;
                        font-family: Georgia;
                        box-sizing: border-box;
                        }

                    button {
                        width: 20%;
                        padding: 12px;
                        border: none;
                        border-radius: 8px;
                        font-size: 24px;
                        font-family: Georgia;
                        cursor: pointer;
                    }

                    textarea {
                        padding: 12px;
                        border: none;
                        border-radius: 8px;
                        font-size: 24px;
                        font-family: Georgia;
                        width: 70%;
                    }
                </style>
            </head>
            <body>
                <div class="container">
                    <h1>Edit your notes for your brew from "#;

pub const NOTES_EDIT_TEXT: &'static str = r#"</h1>
                    <form action="/brew_list/edit_notes/save" method="post">
                        <textarea name="notes" rows="4" cols="50">"#;

pub const NOTES_EDIT_ID: &'static str = r#"</textarea>
                        <input type="hidden" name="id" value=""#;

pub const NOTES_EDIT_END: &'static str = r#"">
                        <br>
                        <br>
                        <button type="submit">Save your notes</button>
                    </form>
                </div>
            </body>
        </html>
        "#;

pub const EDIT_BUTTON: &'static str = r#"<button type="submit" formmethod="post" formaction="/recipe_list/save_edit">Save Edits</button>"#;

} // verus!
