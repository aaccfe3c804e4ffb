use vstd::prelude::*;

verus! {

/// What closing the window leads to.
#[derive(PartialEq, Eq, Structural, Clone, Copy, Debug)]
pub enum CloseAction {
    /// Ask whether to save the sheet before quitting.
    AskToSave,
    /// Destroy the window right away.
    Destroy,
}

/// Closing asks to save first exactly when the sheet has unsaved changes.
pub fn close_action(unsaved_changes: bool) -> (action: CloseAction)
    ensures
        action == (if unsaved_changes {
            CloseAction::AskToSave
        } else {
            CloseAction::Destroy
        }),
{
    if unsaved_changes {
        CloseAction::AskToSave
    } else {
        CloseAction::Destroy
    }
}

/// What happens at startup to a file given on the command line.
#[derive(PartialEq, Eq, Structural, Clone, Copy, Debug)]
pub enum InputFileAction {
    /// Ask whether to overwrite the unsaved sheet with the file.
    AskToOverwrite,
    /// Load the file straight away.
    Load,
}

/// A file given at startup is loaded, after asking first if the current
/// sheet has unsaved changes; without such a file nothing happens.
pub fn input_file_action(has_input_file: bool, unsaved_changes: bool) -> (action: Option<
    InputFileAction,
>)
    ensures
        action == (if !has_input_file {
            None
        } else if unsaved_changes {
            Some(InputFileAction::AskToOverwrite)
        } else {
            Some(InputFileAction::Load)
        }),
{
    if !has_input_file {
        None
    } else if unsaved_changes {
        Some(InputFileAction::AskToOverwrite)
    } else {
        Some(InputFileAction::Load)
    }
}

/// The kinds of file the window can be asked to open.
#[derive(PartialEq, Eq, Structural, Clone, Copy, Debug)]
pub enum FileType {
    /// A saved sheet.
    Rnote,
    /// A vector image.
    Svg,
    /// A raster image.
    BitmapImage,
    Folder,
    Unknown,
}

/// How a file is brought onto the canvas.
#[derive(PartialEq, Eq, Structural, Clone, Copy, Debug)]
pub enum LoadStep {
    /// Replace the sheet with the saved one.
    OpenSheet,
    /// Add the vector image to the sheet, below the visible top.
    ImportVectorImage,
    /// Add the raster image to the sheet, below the visible top.
    ImportBitmapImage,
    /// Leave the sheet alone; the file type is not supported.
    Ignore,
}

/// What opening a file does; everything after `step` happens only once the
/// step has succeeded.
#[derive(PartialEq, Eq, Structural, Clone, Copy, Debug)]
pub struct LoadPlan {
    pub step: LoadStep,
    /// Load the sheet's format and background into the settings panel.
    pub reload_format_panel: bool,
    /// Rebuild the render nodes of the sheet's and the selection's strokes
    /// at the canvas's scale factor.
    pub refresh_render_nodes: bool,
    /// Recompute the canvas size, which follows the opened sheet's format.
    pub resize_canvas: bool,
    /// Redraw the selection, which now holds the imported image.
    pub redraw_selection: bool,
    /// Redraw the canvas.
    pub redraw_canvas: bool,
    /// The sheet's unsaved-changes flag afterwards; `None` leaves it.
    pub unsaved_changes: Option<bool>,
    /// Switch to the selector so that the imported image can be placed.
    pub activate_selector: bool,
}

/// What opening a file of type `file_type` does.
pub open spec fn spec_load_plan(file_type: FileType) -> LoadPlan {
    match file_type {
        FileType::Rnote => LoadPlan {
            step: LoadStep::OpenSheet,
            reload_format_panel: true,
            refresh_render_nodes: true,
            resize_canvas: true,
            redraw_selection: false,
            redraw_canvas: true,
            unsaved_changes: Some(false),
            activate_selector: false,
        },
        FileType::Svg => LoadPlan {
            step: LoadStep::ImportVectorImage,
            reload_format_panel: false,
            refresh_render_nodes: true,
            resize_canvas: false,
            redraw_selection: true,
            redraw_canvas: true,
            unsaved_changes: Some(true),
            activate_selector: true,
        },
        FileType::BitmapImage => LoadPlan {
            step: LoadStep::ImportBitmapImage,
            reload_format_panel: false,
            refresh_render_nodes: true,
            resize_canvas: false,
            redraw_selection: true,
            redraw_canvas: true,
            unsaved_changes: Some(true),
            activate_selector: true,
        },
        FileType::Folder | FileType::Unknown => LoadPlan {
            step: LoadStep::Ignore,
            reload_format_panel: false,
            refresh_render_nodes: false,
            resize_canvas: false,
            redraw_selection: false,
            redraw_canvas: false,
            unsaved_changes: None,
            activate_selector: false,
        },
    }
}

/// Plans the opening of a file of type `file_type`: a saved sheet replaces
/// the current one and counts as saved, an image is imported into the
/// selection and leaves unsaved changes, anything else is ignored.
pub fn load_plan(file_type: FileType) -> (plan: LoadPlan)
    ensures
        plan == spec_load_plan(file_type),
{
    match file_type {
        FileType::Rnote => LoadPlan {
            step: LoadStep::OpenSheet,
            reload_format_panel: true,
            refresh_render_nodes: true,
            resize_canvas: true,
            redraw_selection: false,
            redraw_canvas: true,
            unsaved_changes: Some(false),
            activate_selector: false,
        },
        FileType::Svg => LoadPlan {
            step: LoadStep::ImportVectorImage,
            reload_format_panel: false,
            refresh_render_nodes: true,
            resize_canvas: false,
            redraw_selection: true,
            redraw_canvas: true,
            unsaved_changes: Some(true),
            activate_selector: true,
        },
        FileType::BitmapImage => LoadPlan {
            step: LoadStep::ImportBitmapImage,
            reload_format_panel: false,
            refresh_render_nodes: true,
            resize_canvas: false,
            redraw_selection: true,
            redraw_canvas: true,
            unsaved_changes: Some(true),
            activate_selector: true,
        },
        FileType::Folder | FileType::Unknown => LoadPlan {
            step: LoadStep::Ignore,
            reload_format_panel: false,
            refresh_render_nodes: false,
            resize_canvas: false,
            redraw_selection: false,
            redraw_canvas: false,
            unsaved_changes: None,
            activate_selector: false,
        },
    }
}

/// How opening a file of type `file_type` ends, given the result of its load
/// step: the plan's follow-up once the step succeeded (or when no step runs),
/// the step's error otherwise, in which case nothing else is changed.
pub open spec fn spec_load_outcome<E>(file_type: FileType, step_result: Result<(), E>) -> Result<
    LoadPlan,
    E,
> {
    let plan = spec_load_plan(file_type);
    if plan.step is Ignore {
        Ok(plan)
    } else {
        match step_result {
            Ok(()) => Ok(plan),
            Err(e) => Err(e),
        }
    }
}

/// Finishes opening a file of type `file_type` once its load step ran with
/// `step_result`: a failed step hands its error back and no follow-up is
/// done; a successful step, or a file type that runs no step, yields the
/// plan whose follow-up is then carried out.
pub fn load_outcome<E>(file_type: FileType, step_result: Result<(), E>) -> (outcome: Result<
    LoadPlan,
    E,
>)
    ensures
        outcome == spec_load_outcome(file_type, step_result),
        outcome matches Ok(plan) ==> plan == spec_load_plan(file_type),
        outcome is Err <==> (step_result is Err && !(spec_load_plan(file_type).step is Ignore)),
{
    let plan = load_plan(file_type);
    match plan.step {
        LoadStep::Ignore => Ok(plan),
        _ => match step_result {
            Ok(()) => Ok(plan),
            Err(e) => Err(e),
        },
    }
}

/// Importing an image always leaves unsaved changes behind and switches to
/// the selector, opening a saved sheet always counts as saved, and an ignored
/// file leaves the flag as it was.
pub proof fn lemma_unsaved_after_load(file_type: FileType)
    ensures
        ({
            let plan = spec_load_plan(file_type);
            &&& (plan.step is ImportVectorImage || plan.step is ImportBitmapImage) ==> (
            plan.unsaved_changes == Some(true) && plan.activate_selector)
            &&& plan.step is OpenSheet ==> plan.unsaved_changes == Some(false)
            &&& plan.step is Ignore <==> plan.unsaved_changes is None
        }),
{
}

/// What the window shows at startup, read from the settings.
#[derive(PartialEq, Eq, Structural, Clone, Copy, Debug)]
pub struct SettingsUi {
    /// Whether the page-size controls of the main header are revealed.
    pub pageedit_revealed: bool,
    /// Whether the developer settings action can be activated.
    pub devel_settings_enabled: bool,
    /// Whether the developer actions are revealed.
    pub devel_actions_revealed: bool,
}

/// The page-size controls are revealed only when the sheet does not grow by
/// itself; the developer actions follow the developer setting.
pub fn settings_ui(autoexpand_height: bool, devel: bool) -> (ui: SettingsUi)
    ensures
        ui.pageedit_revealed == !autoexpand_height,
        ui.devel_settings_enabled == devel,
        ui.devel_actions_revealed == devel,
{
    SettingsUi {
        pageedit_revealed: !autoexpand_height,
        devel_settings_enabled: devel,
        devel_actions_revealed: devel,
    }
}


/// What each kind of file leads to: a saved sheet is opened, reloads the
/// format panel and resizes the canvas; a vector or raster image is imported
/// by its own step, redraws the selection and switches to the selector;
/// every supported file rebuilds the render nodes and redraws the canvas;
/// folders and unknown files run no step and change nothing.
pub proof fn lemma_load_plan_table(file_type: FileType)
    ensures
        ({
            let plan = spec_load_plan(file_type);
            let supported = file_type != FileType::Folder && file_type != FileType::Unknown;
            let image = file_type == FileType::Svg || file_type == FileType::BitmapImage;
            &&& (plan.step == LoadStep::OpenSheet <==> file_type == FileType::Rnote)
            &&& (plan.step == LoadStep::ImportVectorImage <==> file_type == FileType::Svg)
            &&& (plan.step == LoadStep::ImportBitmapImage <==> file_type == FileType::BitmapImage)
            &&& (plan.step == LoadStep::Ignore <==> !supported)
            &&& (plan.reload_format_panel <==> file_type == FileType::Rnote)
            &&& (plan.resize_canvas <==> file_type == FileType::Rnote)
            &&& (plan.refresh_render_nodes <==> supported)
            &&& (plan.redraw_canvas <==> supported)
            &&& (plan.redraw_selection <==> image)
            &&& (plan.activate_selector <==> image)
            &&& (file_type == FileType::Rnote ==> plan.unsaved_changes == Some(false))
            &&& (image ==> plan.unsaved_changes == Some(true))
            &&& (!supported ==> plan.unsaved_changes is None)
        }),
{
}

/// A failed load step of a supported file hands back that very error; a
/// successful step, or an unsupported file, yields the file type's plan.
pub proof fn lemma_load_outcome_relation<E>(file_type: FileType, step_result: Result<(), E>)
    ensures
        ({
            let supported = file_type != FileType::Folder && file_type != FileType::Unknown;
            let outcome = spec_load_outcome(file_type, step_result);
            &&& (supported && step_result is Err) ==> outcome == Err::<LoadPlan, E>(
                step_result->Err_0,
            )
            &&& (!supported || step_result is Ok) ==> outcome == Ok::<LoadPlan, E>(
                spec_load_plan(file_type),
            )
        }),
{
}

} // verus!
